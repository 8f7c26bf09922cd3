//! Choice of the brake pre-trajectory.
//!
//! When the current state violates the limits, or would inevitably violate
//! them under full jerk, up to two corrective segments are prepended before
//! the main profile is planned. Which kind of brake applies — none, an
//! acceleration brake, or a velocity brake, each towards the upper or the
//! lower limits — is a pure order decision on the current state, the limits,
//! and the two velocities that the caller has computed for the state under
//! full jerk. The segment durations themselves are floating-point arithmetic
//! and stay with the caller. Values arrive as IEEE-754 bit patterns (see
//! [`crate::float_key`]).

use vstd::prelude::*;

use crate::float_key::ZERO_BITS;
use crate::float_key::bits_lt;
use crate::float_key::bits_num_eq;
use crate::float_key::spec_lt;
use crate::float_key::spec_num_eq;
use crate::profile::Direction;

verus! {

/// Which brake pre-trajectory applies. A brake towards `Direction::DOWN`
/// works against the mirrored limits: minimum for maximum and negated jerk.
#[derive(Debug, Clone, Copy, PartialEq, Eq, Structural)]
pub enum BrakeMode {
    /// The state needs no brake, or a zero limit forbids one.
    NoBrake,
    /// The acceleration lies outside its limits and is brought back first.
    AccelerationBrake(Direction),
    /// The velocity lies outside its limits, or would inevitably leave
    /// them, and is brought back.
    VelocityBrake(Direction),
}

/// The state and limits of one axis that the brake decision reads, each as
/// its IEEE-754 bit pattern, together with the two velocities that the
/// caller has computed for the current state under full jerk.
#[derive(Debug, Clone, Copy, PartialEq, Eq, Structural)]
pub struct BrakeInput {
    /// Current velocity.
    pub v0: u64,
    /// Current acceleration.
    pub a0: u64,
    /// Maximum velocity limit.
    pub v_max: u64,
    /// Minimum velocity limit.
    pub v_min: u64,
    /// Maximum acceleration limit.
    pub a_max: u64,
    /// Minimum acceleration limit.
    pub a_min: u64,
    /// Maximum jerk limit.
    pub j_max: u64,
    /// Velocity reached once the acceleration has been brought to zero
    /// under positive full jerk: the current velocity plus the squared
    /// current acceleration over twice the maximum jerk.
    pub v_at_a_zero_max_jerk: u64,
    /// The same velocity under negative full jerk.
    pub v_at_a_zero_min_jerk: u64,
}

/// Whether one of the limits that braking relies on is zero, in which case
/// braking is skipped.
pub open spec fn spec_zero_limits(b: BrakeInput) -> bool {
    spec_num_eq(b.j_max, ZERO_BITS) || spec_num_eq(b.a_max, ZERO_BITS) || spec_num_eq(
        b.a_min,
        ZERO_BITS,
    )
}

/// The brake that a third-order position-interface axis needs: an
/// acceleration brake when the acceleration is out of range, else a
/// velocity brake when the velocity is out of range and recoverable, or
/// would inevitably leave its range; towards the side that is violated.
pub open spec fn spec_position_brake_mode(b: BrakeInput) -> BrakeMode {
    if spec_zero_limits(b) {
        BrakeMode::NoBrake
    } else if spec_lt(b.a_max, b.a0) {
        BrakeMode::AccelerationBrake(Direction::UP)
    } else if spec_lt(b.a0, b.a_min) {
        BrakeMode::AccelerationBrake(Direction::DOWN)
    } else if (spec_lt(b.v_max, b.v0) && spec_lt(b.v_min, b.v_at_a_zero_min_jerk)) || (spec_lt(
        ZERO_BITS,
        b.a0,
    ) && spec_lt(b.v_max, b.v_at_a_zero_max_jerk)) {
        BrakeMode::VelocityBrake(Direction::UP)
    } else if (spec_lt(b.v0, b.v_min) && spec_lt(b.v_at_a_zero_max_jerk, b.v_max)) || (spec_lt(
        b.a0,
        ZERO_BITS,
    ) && spec_lt(b.v_at_a_zero_min_jerk, b.v_min)) {
        BrakeMode::VelocityBrake(Direction::DOWN)
    } else {
        BrakeMode::NoBrake
    }
}

/// The brake that a third-order velocity-interface axis needs: a constant
/// jerk segment towards the violated acceleration limit, and none under a
/// zero jerk limit.
pub open spec fn spec_velocity_brake_mode(b: BrakeInput) -> BrakeMode {
    if spec_num_eq(b.j_max, ZERO_BITS) {
        BrakeMode::NoBrake
    } else if spec_lt(b.a_max, b.a0) {
        BrakeMode::AccelerationBrake(Direction::UP)
    } else if spec_lt(b.a0, b.a_min) {
        BrakeMode::AccelerationBrake(Direction::DOWN)
    } else {
        BrakeMode::NoBrake
    }
}

/// The brake that a second-order position-interface axis needs: a constant
/// acceleration segment towards the violated velocity limit, and none under
/// a zero acceleration limit.
pub open spec fn spec_second_order_position_brake_mode(b: BrakeInput) -> BrakeMode {
    if spec_num_eq(b.a_max, ZERO_BITS) || spec_num_eq(b.a_min, ZERO_BITS) {
        BrakeMode::NoBrake
    } else if spec_lt(b.v_max, b.v0) {
        BrakeMode::VelocityBrake(Direction::UP)
    } else if spec_lt(b.v0, b.v_min) {
        BrakeMode::VelocityBrake(Direction::DOWN)
    } else {
        BrakeMode::NoBrake
    }
}

/// Decide the brake of a third-order position-interface axis.
pub fn position_brake_mode(b: &BrakeInput) -> (r: BrakeMode)
    ensures
        r == spec_position_brake_mode(*b),
{
    if bits_num_eq(b.j_max, ZERO_BITS) || bits_num_eq(b.a_max, ZERO_BITS) || bits_num_eq(
        b.a_min,
        ZERO_BITS,
    ) {
        BrakeMode::NoBrake
    } else if bits_lt(b.a_max, b.a0) {
        BrakeMode::AccelerationBrake(Direction::UP)
    } else if bits_lt(b.a0, b.a_min) {
        BrakeMode::AccelerationBrake(Direction::DOWN)
    } else if (bits_lt(b.v_max, b.v0) && bits_lt(b.v_min, b.v_at_a_zero_min_jerk)) || (bits_lt(
        ZERO_BITS,
        b.a0,
    ) && bits_lt(b.v_max, b.v_at_a_zero_max_jerk)) {
        BrakeMode::VelocityBrake(Direction::UP)
    } else if (bits_lt(b.v0, b.v_min) && bits_lt(b.v_at_a_zero_max_jerk, b.v_max)) || (bits_lt(
        b.a0,
        ZERO_BITS,
    ) && bits_lt(b.v_at_a_zero_min_jerk, b.v_min)) {
        BrakeMode::VelocityBrake(Direction::DOWN)
    } else {
        BrakeMode::NoBrake
    }
}

/// Decide the brake of a third-order velocity-interface axis.
pub fn velocity_brake_mode(b: &BrakeInput) -> (r: BrakeMode)
    ensures
        r == spec_velocity_brake_mode(*b),
{
    if bits_num_eq(b.j_max, ZERO_BITS) {
        BrakeMode::NoBrake
    } else if bits_lt(b.a_max, b.a0) {
        BrakeMode::AccelerationBrake(Direction::UP)
    } else if bits_lt(b.a0, b.a_min) {
        BrakeMode::AccelerationBrake(Direction::DOWN)
    } else {
        BrakeMode::NoBrake
    }
}

/// Decide the brake of a second-order position-interface axis.
pub fn second_order_position_brake_mode(b: &BrakeInput) -> (r: BrakeMode)
    ensures
        r == spec_second_order_position_brake_mode(*b),
{
    if bits_num_eq(b.a_max, ZERO_BITS) || bits_num_eq(b.a_min, ZERO_BITS) {
        BrakeMode::NoBrake
    } else if bits_lt(b.v_max, b.v0) {
        BrakeMode::VelocityBrake(Direction::UP)
    } else if bits_lt(b.v0, b.v_min) {
        BrakeMode::VelocityBrake(Direction::DOWN)
    } else {
        BrakeMode::NoBrake
    }
}

/// An axis whose state respects its acceleration limits and whose velocity
/// neither violates nor inevitably leaves its limits needs no brake.
pub proof fn lemma_state_within_limits_needs_no_brake(b: BrakeInput)
    requires
        !spec_lt(b.a_max, b.a0),
        !spec_lt(b.a0, b.a_min),
        !spec_lt(b.v_max, b.v0),
        !spec_lt(b.v0, b.v_min),
        !spec_lt(b.v_max, b.v_at_a_zero_max_jerk),
        !spec_lt(b.v_at_a_zero_min_jerk, b.v_min),
    ensures
        spec_position_brake_mode(b) == BrakeMode::NoBrake,
        spec_velocity_brake_mode(b) == BrakeMode::NoBrake,
        spec_second_order_position_brake_mode(b) == BrakeMode::NoBrake,
{
}

} // verus!
