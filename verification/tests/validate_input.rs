use rsruckig::ControlInterface;
use rsruckig::DofBits;
use rsruckig::DurationDiscretization;
use rsruckig::ValidationIssue;
use rsruckig::validate;
use rsruckig::validate_dof;
use rsruckig::validate_input;

/// Assemble the bit patterns of one axis, computing the inevitably reached
/// velocities the same way the trajectory generator's caller does.
fn dof_bits(
    current: (f64, f64, f64),
    target: (f64, f64, f64),
    max: (f64, f64, f64),
    min_velocity: Option<f64>,
    min_acceleration: Option<f64>,
) -> DofBits {
    let (p0, v0, a0) = current;
    let (pf, vf, af) = target;
    let (v_max, a_max, j_max) = max;
    let v_at_a_zero = |v: f64, a: f64, j: f64| v + (a * a) / (2.0 * j);
    DofBits {
        current_position: p0.to_bits(),
        current_velocity: v0.to_bits(),
        current_acceleration: a0.to_bits(),
        target_position: pf.to_bits(),
        target_velocity: vf.to_bits(),
        target_acceleration: af.to_bits(),
        max_velocity: v_max.to_bits(),
        max_acceleration: a_max.to_bits(),
        max_jerk: j_max.to_bits(),
        min_velocity: min_velocity.map(f64::to_bits),
        min_acceleration: min_acceleration.map(f64::to_bits),
        control_interface: ControlInterface::Position,
        v_from_current_max_jerk: v_at_a_zero(v0, a0, j_max).to_bits(),
        v_from_current_min_jerk: v_at_a_zero(v0, a0, -j_max).to_bits(),
        v_from_target_max_jerk: v_at_a_zero(vf, af, j_max).to_bits(),
        v_from_target_min_jerk: v_at_a_zero(vf, af, -j_max).to_bits(),
    }
}

#[test]
fn well_formed_input_passes() {
    let axis = dof_bits(
        (0.0, 0.0, 0.0),
        (1.0, 0.0, 0.0),
        (1.0, 1.0, 1.0),
        None,
        None,
    );
    assert_eq!(validate_dof(&axis, true, true), None);
    assert_eq!(validate(&vec![axis; 3], true, true), Ok(()));
}

#[test]
fn asymmetric_minimum_limits_pass() {
    let axis = dof_bits(
        (0.0, -2.0, 0.0),
        (1.0, -3.0, 2.0),
        (1.0, 2.0, 1.0),
        Some(-3.0),
        Some(-2.0),
    );
    assert_eq!(validate_dof(&axis, true, false), None);
}

#[test]
fn nan_jerk_is_rejected_first() {
    let mut axis = dof_bits(
        (f64::NAN, 0.0, 0.0),
        (1.0, 0.0, 0.0),
        (1.0, 1.0, f64::NAN),
        None,
        None,
    );
    assert_eq!(
        validate_dof(&axis, true, true),
        Some(ValidationIssue::MaxJerkLimitInvalid)
    );
    axis.max_jerk = 1.0f64.to_bits();
    assert_eq!(
        validate_dof(&axis, true, true),
        Some(ValidationIssue::CurrentPositionNotANumber)
    );
}

#[test]
fn negative_limits_are_rejected() {
    let axis = dof_bits(
        (0.0, 0.0, 0.0),
        (1.0, 0.0, 0.0),
        (-1.0, 1.0, 1.0),
        None,
        None,
    );
    assert_eq!(
        validate_dof(&axis, true, true),
        Some(ValidationIssue::MaxVelocityLimitInvalid)
    );
    let axis = dof_bits(
        (0.0, 0.0, 0.0),
        (1.0, 0.0, 0.0),
        (1.0, 1.0, 1.0),
        Some(0.5),
        None,
    );
    assert_eq!(
        validate_dof(&axis, true, true),
        Some(ValidationIssue::MinVelocityLimitInvalid)
    );
}

#[test]
fn current_velocity_above_limit_is_rejected() {
    // A current velocity beyond the maximum velocity limit.
    let axis = dof_bits(
        (0.0, 7.0, 0.0),
        (10.0, 0.0, 0.0),
        (5.0, 10.0, 30.0),
        None,
        None,
    );
    assert_eq!(
        validate_dof(&axis, true, true),
        Some(ValidationIssue::CurrentVelocityExceedsMax)
    );
    // Without the current-state check the same input passes.
    assert_eq!(validate_dof(&axis, false, true), None);
}

#[test]
fn inevitable_velocity_overshoot_is_rejected() {
    // With the acceleration still positive, the velocity reached once the
    // acceleration has been wound down under full jerk exceeds the limit:
    // 0.3 + 1/(2*1) = 0.8 > 0.5.
    let axis = dof_bits(
        (0.0, 0.3, 1.0),
        (1.0, 0.0, 0.0),
        (0.5, 2.0, 1.0),
        None,
        None,
    );
    assert_eq!(
        validate_dof(&axis, true, false),
        Some(ValidationIssue::CurrentStateWillExceedMaxVelocity)
    );
}

#[test]
fn velocity_interface_skips_position_checks() {
    let mut axis = dof_bits(
        (f64::NAN, 0.0, 0.0),
        (f64::NAN, 0.5, 0.0),
        (f64::NAN, 1.0, 1.0),
        None,
        None,
    );
    axis.control_interface = ControlInterface::Velocity;
    assert_eq!(validate_dof(&axis, true, true), None);
}

#[test]
fn first_failing_axis_is_reported() {
    let good = dof_bits(
        (0.0, 0.0, 0.0),
        (1.0, 0.0, 0.0),
        (1.0, 1.0, 1.0),
        None,
        None,
    );
    let bad = dof_bits(
        (0.0, 0.0, 0.0),
        (1.0, 2.0, 0.0),
        (1.0, 1.0, 1.0),
        None,
        None,
    );
    assert_eq!(
        validate(&vec![good, bad, bad], true, true),
        Err((1, ValidationIssue::TargetVelocityExceedsMax))
    );
}

#[test]
fn acceleration_limit_violations_are_rejected() {
    let axis = dof_bits(
        (0.0, 0.0, 3.0),
        (1.0, 0.0, 0.0),
        (1.0, 2.0, 1.0),
        None,
        None,
    );
    assert_eq!(
        validate_dof(&axis, true, false),
        Some(ValidationIssue::CurrentAccelerationExceedsMax)
    );
    let axis = dof_bits(
        (0.0, 0.0, 0.0),
        (1.0, 0.0, -3.0),
        (1.0, 2.0, 1.0),
        None,
        None,
    );
    assert_eq!(
        validate_dof(&axis, false, true),
        Some(ValidationIssue::TargetAccelerationUndercutsMin)
    );
    // The minimum acceleration defaults to the negated maximum, so -1.5
    // undercuts an explicit minimum of -1.0 but not the default -2.0.
    let axis = dof_bits(
        (0.0, 0.0, -1.5),
        (1.0, 0.0, 0.0),
        (1.0, 2.0, 10.0),
        None,
        Some(-1.0),
    );
    assert_eq!(
        validate_dof(&axis, true, false),
        Some(ValidationIssue::CurrentAccelerationUndercutsMin)
    );
    let axis = dof_bits(
        (0.0, 0.0, -1.5),
        (1.0, 0.0, 0.0),
        (1.0, 2.0, 10.0),
        None,
        None,
    );
    assert_eq!(validate_dof(&axis, true, false), None);
}

#[test]
fn nan_states_are_rejected() {
    let axis = dof_bits(
        (0.0, 0.0, f64::NAN),
        (1.0, 0.0, 0.0),
        (1.0, 1.0, 1.0),
        None,
        None,
    );
    assert_eq!(
        validate_dof(&axis, true, true),
        Some(ValidationIssue::CurrentAccelerationNotANumber)
    );
    let axis = dof_bits(
        (0.0, f64::NAN, 0.0),
        (1.0, 0.0, 0.0),
        (1.0, 1.0, 1.0),
        None,
        None,
    );
    assert_eq!(
        validate_dof(&axis, true, true),
        Some(ValidationIssue::CurrentVelocityNotANumber)
    );
    let axis = dof_bits(
        (0.0, 0.0, 0.0),
        (f64::NAN, 0.0, 0.0),
        (1.0, 1.0, 1.0),
        None,
        None,
    );
    assert_eq!(
        validate_dof(&axis, true, true),
        Some(ValidationIssue::TargetPositionNotANumber)
    );
}

#[test]
fn target_state_inevitable_overshoot_is_rejected() {
    // The target is approached with a negative acceleration, so the profile
    // must previously have been at 0.1 + 4/(2*2) = 1.1 > 1.0.
    let axis = dof_bits(
        (0.0, 0.0, 0.0),
        (1.0, 0.1, -2.0),
        (1.0, 5.0, 2.0),
        None,
        None,
    );
    assert_eq!(
        validate_dof(&axis, false, true),
        Some(ValidationIssue::TargetStateWillExceedMaxVelocity)
    );
}

#[test]
fn discrete_durations_need_a_positive_control_cycle() {
    let axis = dof_bits(
        (0.0, 0.0, 0.0),
        (1.0, 0.0, 0.0),
        (1.0, 1.0, 1.0),
        None,
        None,
    );
    let dofs = vec![axis];
    assert_eq!(
        validate_input(
            &dofs,
            true,
            true,
            0.0f64.to_bits(),
            DurationDiscretization::Discrete
        ),
        Err((1, ValidationIssue::DeltaTimeNotPositive))
    );
    assert_eq!(
        validate_input(
            &dofs,
            true,
            true,
            0.0f64.to_bits(),
            DurationDiscretization::Continuous
        ),
        Ok(())
    );
    assert_eq!(
        validate_input(
            &dofs,
            true,
            true,
            0.005f64.to_bits(),
            DurationDiscretization::Discrete
        ),
        Ok(())
    );
}
