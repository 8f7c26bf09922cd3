//! Decisions of phase synchronization.
//!
//! Phase synchronization makes every axis follow a scaled copy of one time
//! profile, which moves the system on a straight line through configuration
//! space. Whether that is possible is decided by a collinearity test against
//! a reference coordinate; which coordinate serves as the reference is a
//! pure order decision on magnitudes and is settled here. The
//! proportionality comparison itself is floating-point arithmetic and stays
//! with the caller. Values arrive as IEEE-754 bit patterns (see
//! [`crate::float_key`]).

use vstd::prelude::*;

use crate::float_key::EPSILON_BITS;
use crate::float_key::abs_bits;
use crate::float_key::bits_lt;
use crate::float_key::spec_magnitude;
use crate::float_key::spec_lt;
use crate::input_parameter::ControlInterface;
use crate::input_parameter::Synchronization;

verus! {

/// The five coordinates of one axis that the collinearity test reads, each
/// as its IEEE-754 bit pattern.
#[derive(Debug, Clone, Copy, PartialEq, Eq, Structural)]
pub struct PhaseCoordinates {
    /// Distance from the current to the target position.
    pub pd: u64,
    /// Current velocity.
    pub v0: u64,
    /// Current acceleration.
    pub a0: u64,
    /// Target velocity.
    pub vf: u64,
    /// Target acceleration.
    pub af: u64,
}

/// Which coordinate vector serves as the collinearity reference.
#[derive(Debug, Clone, Copy, PartialEq, Eq, Structural)]
pub enum ScaleSource {
    /// The per-axis distances to the target position.
    TargetDistance,
    /// The current velocities.
    CurrentVelocity,
    /// The current accelerations.
    CurrentAcceleration,
    /// The target velocities.
    TargetVelocity,
    /// The target accelerations.
    TargetAcceleration,
}

/// Whether a magnitude is negligible: not above the machine epsilon.
pub open spec fn spec_negligible(bits: u64) -> bool {
    !spec_lt(EPSILON_BITS, spec_magnitude(bits))
}

/// The reference coordinate that one axis offers: its first coordinate with
/// a non-negligible magnitude, the position distance counting only under
/// the position interface.
pub open spec fn spec_dof_scale_choice(c: PhaseCoordinates, interface: ControlInterface) -> Option<
    ScaleSource,
> {
    if interface == ControlInterface::Position && !spec_negligible(c.pd) {
        Some(ScaleSource::TargetDistance)
    } else if !spec_negligible(c.v0) {
        Some(ScaleSource::CurrentVelocity)
    } else if !spec_negligible(c.a0) {
        Some(ScaleSource::CurrentAcceleration)
    } else if !spec_negligible(c.vf) {
        Some(ScaleSource::TargetVelocity)
    } else if !spec_negligible(c.af) {
        Some(ScaleSource::TargetAcceleration)
    } else {
        None
    }
}

/// Whether `bits` has a non-negligible magnitude.
fn significant(bits: u64) -> (r: bool)
    ensures
        r == !spec_negligible(bits),
{
    bits_lt(EPSILON_BITS, abs_bits(bits))
}

/// Choose the collinearity reference: walk the phase-synchronized axes in
/// order and take the first axis, and on it the first coordinate, whose
/// magnitude is not negligible. With every coordinate of every such axis
/// negligible there is nothing to scale, and nothing is chosen.
pub fn choose_scale(
    coords: &Vec<PhaseCoordinates>,
    sync: &Vec<Synchronization>,
    interface: &Vec<ControlInterface>,
) -> (r: Option<(ScaleSource, usize)>)
    requires
        sync@.len() == coords@.len(),
        interface@.len() == coords@.len(),
    ensures
        r matches Some((source, dof)) ==> dof < coords@.len() && sync@[dof as int]
            == Synchronization::Phase && spec_dof_scale_choice(
            coords@[dof as int],
            interface@[dof as int],
        ) == Some(source) && forall|e: int|
            0 <= e < dof && sync@[e] == Synchronization::Phase ==> spec_dof_scale_choice(
                #[trigger] coords@[e],
                interface@[e],
            ) is None,
        r is None ==> forall|e: int|
            0 <= e < coords@.len() && sync@[e] == Synchronization::Phase ==> spec_dof_scale_choice(
                #[trigger] coords@[e],
                interface@[e],
            ) is None,
{
    let mut dof: usize = 0;
    while dof < coords.len()
        invariant
            sync@.len() == coords@.len(),
            interface@.len() == coords@.len(),
            dof <= coords@.len(),
            forall|e: int|
                0 <= e < dof && sync@[e] == Synchronization::Phase ==> spec_dof_scale_choice(
                    #[trigger] coords@[e],
                    interface@[e],
                ) is None,
        decreases coords@.len() - dof,
    {
        if sync[dof] == Synchronization::Phase {
            let c = &coords[dof];
            if interface[dof] == ControlInterface::Position && significant(c.pd) {
                return Some((ScaleSource::TargetDistance, dof));
            } else if significant(c.v0) {
                return Some((ScaleSource::CurrentVelocity, dof));
            } else if significant(c.a0) {
                return Some((ScaleSource::CurrentAcceleration, dof));
            } else if significant(c.vf) {
                return Some((ScaleSource::TargetVelocity, dof));
            } else if significant(c.af) {
                return Some((ScaleSource::TargetAcceleration, dof));
            }
        }
        dof = dof + 1;
    }
    None
}

/// Whether an axis synchronized as `TimeIfNecessary` keeps its own
/// minimum-duration profile: it does when both its target velocity and its
/// target acceleration lie strictly below the machine epsilon in magnitude.
pub fn keeps_own_profile(
    sync: Synchronization,
    target_velocity: u64,
    target_acceleration: u64,
) -> (r: bool)
    ensures
        r == (sync == Synchronization::TimeIfNecessary && spec_lt(
            spec_magnitude(target_velocity),
            EPSILON_BITS,
        ) && spec_lt(spec_magnitude(target_acceleration), EPSILON_BITS)),
{
    sync == Synchronization::TimeIfNecessary && bits_lt(abs_bits(target_velocity), EPSILON_BITS)
        && bits_lt(abs_bits(target_acceleration), EPSILON_BITS)
}

} // verus!
