//! Input validation.
//!
//! Before a trajectory is calculated, every axis's limits and boundary
//! states are checked in a fixed order; the first offending condition is
//! reported together with the axis it belongs to. Every kinematic quantity
//! arrives as its IEEE-754 bit pattern (see [`crate::float_key`]); the four
//! velocities that the current and target state inevitably reach under full
//! jerk are computed by the caller and handed over alongside.

use vstd::prelude::*;

use crate::float_key::ZERO_BITS;
use crate::float_key::spec_is_nan;
use crate::float_key::spec_lt;
use crate::float_key::spec_le;
use crate::float_key::spec_neg;
use crate::float_key::is_nan_bits;
use crate::float_key::bits_lt;
use crate::float_key::bits_le;
use crate::float_key::neg_bits;
use crate::input_parameter::ControlInterface;
use crate::input_parameter::DurationDiscretization;

verus! {

/// One condition on which validation rejects an input.
#[derive(Debug, Clone, Copy, PartialEq, Eq, Structural)]
pub enum ValidationIssue {
    /// The maximum jerk limit is not-a-number or negative.
    MaxJerkLimitInvalid,
    /// The maximum acceleration limit is not-a-number or negative.
    MaxAccelerationLimitInvalid,
    /// The minimum acceleration limit is not-a-number or positive.
    MinAccelerationLimitInvalid,
    /// The current acceleration is not-a-number.
    CurrentAccelerationNotANumber,
    /// The target acceleration is not-a-number.
    TargetAccelerationNotANumber,
    /// The current acceleration exceeds the maximum acceleration limit.
    CurrentAccelerationExceedsMax,
    /// The current acceleration undercuts the minimum acceleration limit.
    CurrentAccelerationUndercutsMin,
    /// The target acceleration exceeds the maximum acceleration limit.
    TargetAccelerationExceedsMax,
    /// The target acceleration undercuts the minimum acceleration limit.
    TargetAccelerationUndercutsMin,
    /// The current velocity is not-a-number.
    CurrentVelocityNotANumber,
    /// The target velocity is not-a-number.
    TargetVelocityNotANumber,
    /// The current position is not-a-number.
    CurrentPositionNotANumber,
    /// The target position is not-a-number.
    TargetPositionNotANumber,
    /// The maximum velocity limit is not-a-number or negative.
    MaxVelocityLimitInvalid,
    /// The minimum velocity limit is not-a-number or positive.
    MinVelocityLimitInvalid,
    /// The current velocity exceeds the maximum velocity limit.
    CurrentVelocityExceedsMax,
    /// The current velocity undercuts the minimum velocity limit.
    CurrentVelocityUndercutsMin,
    /// The target velocity exceeds the maximum velocity limit.
    TargetVelocityExceedsMax,
    /// The target velocity undercuts the minimum velocity limit.
    TargetVelocityUndercutsMin,
    /// From the current state, the velocity reached once the acceleration
    /// has been brought to zero under full jerk exceeds the maximum
    /// velocity limit.
    CurrentStateWillExceedMaxVelocity,
    /// From the current state, that velocity undercuts the minimum velocity
    /// limit.
    CurrentStateWillUndercutMinVelocity,
    /// Towards the target state, the velocity from which the target
    /// acceleration is reached under full jerk exceeds the maximum velocity
    /// limit.
    TargetStateWillExceedMaxVelocity,
    /// Towards the target state, that velocity undercuts the minimum
    /// velocity limit.
    TargetStateWillUndercutMinVelocity,
    /// The control cycle duration is not larger than zero although discrete
    /// durations are requested.
    DeltaTimeNotPositive,
}

/// The kinematic quantities of one axis, each as its IEEE-754 bit pattern,
/// together with the four inevitably reached velocities that the caller has
/// computed from them.
#[derive(Debug, Clone, Copy, PartialEq, Eq, Structural)]
pub struct DofBits {
    /// Current position.
    pub current_position: u64,
    /// Current velocity.
    pub current_velocity: u64,
    /// Current acceleration.
    pub current_acceleration: u64,
    /// Target position.
    pub target_position: u64,
    /// Target velocity.
    pub target_velocity: u64,
    /// Target acceleration.
    pub target_acceleration: u64,
    /// Maximum velocity limit.
    pub max_velocity: u64,
    /// Maximum acceleration limit.
    pub max_acceleration: u64,
    /// Maximum jerk limit.
    pub max_jerk: u64,
    /// Minimum velocity limit; the negated maximum when absent.
    pub min_velocity: Option<u64>,
    /// Minimum acceleration limit; the negated maximum when absent.
    pub min_acceleration: Option<u64>,
    /// The control interface that applies to this axis.
    pub control_interface: ControlInterface,
    /// Velocity reached from the current state once the acceleration has
    /// been brought to zero under positive full jerk: the current velocity
    /// plus the squared current acceleration over twice the maximum jerk.
    pub v_from_current_max_jerk: u64,
    /// The same velocity under negative full jerk.
    pub v_from_current_min_jerk: u64,
    /// Velocity from which the target state is reached under positive full
    /// jerk: the target velocity plus the squared target acceleration over
    /// twice the maximum jerk.
    pub v_from_target_max_jerk: u64,
    /// The same velocity under negative full jerk.
    pub v_from_target_min_jerk: u64,
}

/// The minimum acceleration limit of an axis: the given one, or the negated
/// maximum when none is given.
pub open spec fn spec_a_min(d: DofBits) -> u64 {
    match d.min_acceleration {
        Some(b) => b,
        None => spec_neg(d.max_acceleration),
    }
}

/// The minimum velocity limit of an axis: the given one, or the negated
/// maximum when none is given.
pub open spec fn spec_v_min(d: DofBits) -> u64 {
    match d.min_velocity {
        Some(b) => b,
        None => spec_neg(d.max_velocity),
    }
}

/// The first condition on which one axis is rejected, in the fixed order of
/// the checks, or nothing when the axis passes. The state-within-limit
/// checks run only when requested by the two flags.
pub open spec fn spec_validate_dof(
    d: DofBits,
    check_current_state_within_limits: bool,
    check_target_state_within_limits: bool,
) -> Option<ValidationIssue> {
    let a_min = spec_a_min(d);
    let v_min = spec_v_min(d);
    if spec_is_nan(d.max_jerk) || spec_lt(d.max_jerk, ZERO_BITS) {
        Some(ValidationIssue::MaxJerkLimitInvalid)
    } else if spec_is_nan(d.max_acceleration) || spec_lt(d.max_acceleration, ZERO_BITS) {
        Some(ValidationIssue::MaxAccelerationLimitInvalid)
    } else if spec_is_nan(a_min) || spec_lt(ZERO_BITS, a_min) {
        Some(ValidationIssue::MinAccelerationLimitInvalid)
    } else if spec_is_nan(d.current_acceleration) {
        Some(ValidationIssue::CurrentAccelerationNotANumber)
    } else if spec_is_nan(d.target_acceleration) {
        Some(ValidationIssue::TargetAccelerationNotANumber)
    } else if check_current_state_within_limits && spec_lt(
        d.max_acceleration,
        d.current_acceleration,
    ) {
        Some(ValidationIssue::CurrentAccelerationExceedsMax)
    } else if check_current_state_within_limits && spec_lt(d.current_acceleration, a_min) {
        Some(ValidationIssue::CurrentAccelerationUndercutsMin)
    } else if check_target_state_within_limits && spec_lt(
        d.max_acceleration,
        d.target_acceleration,
    ) {
        Some(ValidationIssue::TargetAccelerationExceedsMax)
    } else if check_target_state_within_limits && spec_lt(d.target_acceleration, a_min) {
        Some(ValidationIssue::TargetAccelerationUndercutsMin)
    } else if spec_is_nan(d.current_velocity) {
        Some(ValidationIssue::CurrentVelocityNotANumber)
    } else if spec_is_nan(d.target_velocity) {
        Some(ValidationIssue::TargetVelocityNotANumber)
    } else if d.control_interface != ControlInterface::Position {
        None
    } else if spec_is_nan(d.current_position) {
        Some(ValidationIssue::CurrentPositionNotANumber)
    } else if spec_is_nan(d.target_position) {
        Some(ValidationIssue::TargetPositionNotANumber)
    } else if spec_is_nan(d.max_velocity) || spec_lt(d.max_velocity, ZERO_BITS) {
        Some(ValidationIssue::MaxVelocityLimitInvalid)
    } else if spec_is_nan(v_min) || spec_lt(ZERO_BITS, v_min) {
        Some(ValidationIssue::MinVelocityLimitInvalid)
    } else if check_current_state_within_limits && spec_lt(d.max_velocity, d.current_velocity) {
        Some(ValidationIssue::CurrentVelocityExceedsMax)
    } else if check_current_state_within_limits && spec_lt(d.current_velocity, v_min) {
        Some(ValidationIssue::CurrentVelocityUndercutsMin)
    } else if check_target_state_within_limits && spec_lt(d.max_velocity, d.target_velocity) {
        Some(ValidationIssue::TargetVelocityExceedsMax)
    } else if check_target_state_within_limits && spec_lt(d.target_velocity, v_min) {
        Some(ValidationIssue::TargetVelocityUndercutsMin)
    } else if check_current_state_within_limits && spec_lt(ZERO_BITS, d.current_acceleration)
        && spec_lt(ZERO_BITS, d.max_jerk) && spec_lt(d.max_velocity, d.v_from_current_max_jerk) {
        Some(ValidationIssue::CurrentStateWillExceedMaxVelocity)
    } else if check_current_state_within_limits && spec_lt(d.current_acceleration, ZERO_BITS)
        && spec_lt(ZERO_BITS, d.max_jerk) && spec_lt(d.v_from_current_min_jerk, v_min) {
        Some(ValidationIssue::CurrentStateWillUndercutMinVelocity)
    } else if check_target_state_within_limits && spec_lt(d.target_acceleration, ZERO_BITS)
        && spec_lt(ZERO_BITS, d.max_jerk) && spec_lt(d.max_velocity, d.v_from_target_max_jerk) {
        Some(ValidationIssue::TargetStateWillExceedMaxVelocity)
    } else if check_target_state_within_limits && spec_lt(ZERO_BITS, d.target_acceleration)
        && spec_lt(ZERO_BITS, d.max_jerk) && spec_lt(d.v_from_target_min_jerk, v_min) {
        Some(ValidationIssue::TargetStateWillUndercutMinVelocity)
    } else {
        None
    }
}

/// Check one axis, reporting the first offending condition.
pub fn validate_dof(
    d: &DofBits,
    check_current_state_within_limits: bool,
    check_target_state_within_limits: bool,
) -> (r: Option<ValidationIssue>)
    ensures
        r == spec_validate_dof(
            *d,
            check_current_state_within_limits,
            check_target_state_within_limits,
        ),
{
    let a_min = match d.min_acceleration {
        Some(b) => b,
        None => neg_bits(d.max_acceleration),
    };
    let v_min = match d.min_velocity {
        Some(b) => b,
        None => neg_bits(d.max_velocity),
    };
    if is_nan_bits(d.max_jerk) || bits_lt(d.max_jerk, ZERO_BITS) {
        Some(ValidationIssue::MaxJerkLimitInvalid)
    } else if is_nan_bits(d.max_acceleration) || bits_lt(d.max_acceleration, ZERO_BITS) {
        Some(ValidationIssue::MaxAccelerationLimitInvalid)
    } else if is_nan_bits(a_min) || bits_lt(ZERO_BITS, a_min) {
        Some(ValidationIssue::MinAccelerationLimitInvalid)
    } else if is_nan_bits(d.current_acceleration) {
        Some(ValidationIssue::CurrentAccelerationNotANumber)
    } else if is_nan_bits(d.target_acceleration) {
        Some(ValidationIssue::TargetAccelerationNotANumber)
    } else if check_current_state_within_limits && bits_lt(
        d.max_acceleration,
        d.current_acceleration,
    ) {
        Some(ValidationIssue::CurrentAccelerationExceedsMax)
    } else if check_current_state_within_limits && bits_lt(d.current_acceleration, a_min) {
        Some(ValidationIssue::CurrentAccelerationUndercutsMin)
    } else if check_target_state_within_limits && bits_lt(
        d.max_acceleration,
        d.target_acceleration,
    ) {
        Some(ValidationIssue::TargetAccelerationExceedsMax)
    } else if check_target_state_within_limits && bits_lt(d.target_acceleration, a_min) {
        Some(ValidationIssue::TargetAccelerationUndercutsMin)
    } else if is_nan_bits(d.current_velocity) {
        Some(ValidationIssue::CurrentVelocityNotANumber)
    } else if is_nan_bits(d.target_velocity) {
        Some(ValidationIssue::TargetVelocityNotANumber)
    } else if d.control_interface != ControlInterface::Position {
        None
    } else if is_nan_bits(d.current_position) {
        Some(ValidationIssue::CurrentPositionNotANumber)
    } else if is_nan_bits(d.target_position) {
        Some(ValidationIssue::TargetPositionNotANumber)
    } else if is_nan_bits(d.max_velocity) || bits_lt(d.max_velocity, ZERO_BITS) {
        Some(ValidationIssue::MaxVelocityLimitInvalid)
    } else if is_nan_bits(v_min) || bits_lt(ZERO_BITS, v_min) {
        Some(ValidationIssue::MinVelocityLimitInvalid)
    } else if check_current_state_within_limits && bits_lt(d.max_velocity, d.current_velocity) {
        Some(ValidationIssue::CurrentVelocityExceedsMax)
    } else if check_current_state_within_limits && bits_lt(d.current_velocity, v_min) {
        Some(ValidationIssue::CurrentVelocityUndercutsMin)
    } else if check_target_state_within_limits && bits_lt(d.max_velocity, d.target_velocity) {
        Some(ValidationIssue::TargetVelocityExceedsMax)
    } else if check_target_state_within_limits && bits_lt(d.target_velocity, v_min) {
        Some(ValidationIssue::TargetVelocityUndercutsMin)
    } else if check_current_state_within_limits && bits_lt(ZERO_BITS, d.current_acceleration)
        && bits_lt(ZERO_BITS, d.max_jerk) && bits_lt(d.max_velocity, d.v_from_current_max_jerk) {
        Some(ValidationIssue::CurrentStateWillExceedMaxVelocity)
    } else if check_current_state_within_limits && bits_lt(d.current_acceleration, ZERO_BITS)
        && bits_lt(ZERO_BITS, d.max_jerk) && bits_lt(d.v_from_current_min_jerk, v_min) {
        Some(ValidationIssue::CurrentStateWillUndercutMinVelocity)
    } else if check_target_state_within_limits && bits_lt(d.target_acceleration, ZERO_BITS)
        && bits_lt(ZERO_BITS, d.max_jerk) && bits_lt(d.max_velocity, d.v_from_target_max_jerk) {
        Some(ValidationIssue::TargetStateWillExceedMaxVelocity)
    } else if check_target_state_within_limits && bits_lt(ZERO_BITS, d.target_acceleration)
        && bits_lt(ZERO_BITS, d.max_jerk) && bits_lt(d.v_from_target_min_jerk, v_min) {
        Some(ValidationIssue::TargetStateWillUndercutMinVelocity)
    } else {
        None
    }
}

/// Check every axis in order, reporting the first offending axis and its
/// first offending condition; an input passes exactly when every axis
/// passes.
pub fn validate(
    dofs: &Vec<DofBits>,
    check_current_state_within_limits: bool,
    check_target_state_within_limits: bool,
) -> (r: Result<(), (usize, ValidationIssue)>)
    ensures
        r is Ok <==> forall|d: int|
            0 <= d < dofs@.len() ==> spec_validate_dof(
                #[trigger] dofs@[d],
                check_current_state_within_limits,
                check_target_state_within_limits,
            ) is None,
        r matches Err((d, issue)) ==> d < dofs@.len() && spec_validate_dof(
            dofs@[d as int],
            check_current_state_within_limits,
            check_target_state_within_limits,
        ) == Some(issue) && forall|e: int|
            0 <= e < d ==> spec_validate_dof(
                #[trigger] dofs@[e],
                check_current_state_within_limits,
                check_target_state_within_limits,
            ) is None,
{
    let mut d: usize = 0;
    while d < dofs.len()
        invariant
            d <= dofs@.len(),
            forall|e: int|
                0 <= e < d ==> spec_validate_dof(
                    #[trigger] dofs@[e],
                    check_current_state_within_limits,
                    check_target_state_within_limits,
                ) is None,
        decreases dofs@.len() - d,
    {
        if let Some(issue) = validate_dof(
            &dofs[d],
            check_current_state_within_limits,
            check_target_state_within_limits,
        ) {
            return Err((d, issue));
        }
        d = d + 1;
    }
    Ok(())
}

/// Check every axis and the control cycle duration: with discrete durations
/// requested, a control cycle that is not larger than zero is rejected
/// after all per-axis checks have passed.
pub fn validate_input(
    dofs: &Vec<DofBits>,
    check_current_state_within_limits: bool,
    check_target_state_within_limits: bool,
    delta_time: u64,
    duration_discretization: DurationDiscretization,
) -> (r: Result<(), (usize, ValidationIssue)>)
    ensures
        r is Ok <==> (forall|d: int|
            0 <= d < dofs@.len() ==> spec_validate_dof(
                #[trigger] dofs@[d],
                check_current_state_within_limits,
                check_target_state_within_limits,
            ) is None) && !(duration_discretization != DurationDiscretization::Continuous
            && spec_le(delta_time, ZERO_BITS)),
        r matches Err((d, issue)) ==> (issue != ValidationIssue::DeltaTimeNotPositive ==> d
            < dofs@.len() && spec_validate_dof(
            dofs@[d as int],
            check_current_state_within_limits,
            check_target_state_within_limits,
        ) == Some(issue)) && (issue == ValidationIssue::DeltaTimeNotPositive ==> d
            == dofs@.len() && duration_discretization != DurationDiscretization::Continuous
            && spec_le(delta_time, ZERO_BITS)),
{
    let per_dof = validate(
        dofs,
        check_current_state_within_limits,
        check_target_state_within_limits,
    );
    if let Err(e) = per_dof {
        return Err(e);
    }
    if duration_discretization != DurationDiscretization::Continuous && bits_le(
        delta_time,
        ZERO_BITS,
    ) {
        return Err((dofs.len(), ValidationIssue::DeltaTimeNotPositive));
    }
    Ok(())
}

} // verus!
