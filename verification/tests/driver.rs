use rsruckig::ControlInterface;
use rsruckig::PhaseCoordinates;
use rsruckig::RuckigResult;
use rsruckig::ScaleSource;
use rsruckig::Synchronization;
use rsruckig::choose_scale;
use rsruckig::duration_exceeds_guard;
use rsruckig::keeps_own_profile;
use rsruckig::section_changed;
use rsruckig::update_result;

fn coords(pd: f64, v0: f64, a0: f64, vf: f64, af: f64) -> PhaseCoordinates {
    PhaseCoordinates {
        pd: pd.to_bits(),
        v0: v0.to_bits(),
        a0: a0.to_bits(),
        vf: vf.to_bits(),
        af: af.to_bits(),
    }
}

#[test]
fn update_finishes_once_time_passes_duration() {
    assert_eq!(
        update_result(3.99f64.to_bits(), 4.0f64.to_bits()),
        RuckigResult::Working
    );
    assert_eq!(
        update_result(4.0f64.to_bits(), 4.0f64.to_bits()),
        RuckigResult::Working
    );
    assert_eq!(
        update_result(4.005f64.to_bits(), 4.0f64.to_bits()),
        RuckigResult::Finished
    );
}

#[test]
fn duration_guard_threshold() {
    assert!(!duration_exceeds_guard(7.6e3f64.to_bits()));
    assert!(!duration_exceeds_guard(4.0f64.to_bits()));
    assert!(duration_exceeds_guard(7.601e3f64.to_bits()));
    assert!(duration_exceeds_guard(f64::INFINITY.to_bits()));
}

#[test]
fn only_forward_section_changes_count() {
    assert!(!section_changed(1, 1));
    assert!(!section_changed(2, 1));
    assert!(section_changed(1, 2));
}

#[test]
fn scale_vector_choice_prefers_position_distance() {
    let c = vec![coords(1.0, 0.5, 0.0, 0.0, 0.0)];
    let sync = vec![Synchronization::Phase];
    let iface = vec![ControlInterface::Position];
    assert_eq!(
        choose_scale(&c, &sync, &iface),
        Some((ScaleSource::TargetDistance, 0))
    );
    // Under the velocity interface the position distance does not count.
    let iface = vec![ControlInterface::Velocity];
    assert_eq!(
        choose_scale(&c, &sync, &iface),
        Some((ScaleSource::CurrentVelocity, 0))
    );
}

#[test]
fn scale_vector_choice_skips_negligible_axes() {
    let c = vec![
        coords(0.0, 0.0, 0.0, 0.0, 0.0),
        coords(0.0, 0.0, 0.0, 0.3, 0.0),
    ];
    let sync = vec![Synchronization::Phase; 2];
    let iface = vec![ControlInterface::Position; 2];
    assert_eq!(
        choose_scale(&c, &sync, &iface),
        Some((ScaleSource::TargetVelocity, 1))
    );
    // A zero configuration offers nothing to scale.
    let c = vec![coords(0.0, 0.0, 0.0, 0.0, 0.0)];
    let sync = vec![Synchronization::Phase];
    let iface = vec![ControlInterface::Position];
    assert_eq!(choose_scale(&c, &sync, &iface), None);
    // An axis that is not phase-synchronized is not consulted.
    let c = vec![coords(1.0, 0.0, 0.0, 0.0, 0.0)];
    let sync = vec![Synchronization::Time];
    assert_eq!(choose_scale(&c, &sync, &iface), None);
}

#[test]
fn time_if_necessary_keeps_profile_only_at_rest_targets() {
    let tin = Synchronization::TimeIfNecessary;
    assert!(keeps_own_profile(tin, 0.0f64.to_bits(), 0.0f64.to_bits()));
    assert!(!keeps_own_profile(tin, 0.3f64.to_bits(), 0.0f64.to_bits()));
    assert!(!keeps_own_profile(tin, 0.0f64.to_bits(), 0.2f64.to_bits()));
    assert!(!keeps_own_profile(
        Synchronization::Time,
        0.0f64.to_bits(),
        0.0f64.to_bits()
    ));
}
