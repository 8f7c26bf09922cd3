use rsruckig::Block;
use rsruckig::Interval;
use rsruckig::ProfileSource;
use rsruckig::SyncChoice;
use rsruckig::Synchronization;
use rsruckig::normalize_zero_bits;
use rsruckig::select_sync_time;
use rsruckig::sync_candidates;
use rsruckig::synchronize;
use rsruckig::total_order_key;

fn key(x: f64) -> u64 {
    total_order_key(normalize_zero_bits(x.to_bits()))
}

#[test]
fn single_axis_takes_its_own_minimum() {
    // One axis whose shortest feasible duration realizes the common one.
    let blocks = vec![Block::with_min(key(3.1748021039))];
    let sync = vec![Synchronization::Time];
    let sel = synchronize(&blocks, &sync, None).unwrap();
    assert_eq!(sel.time, key(3.1748021039));
    assert_eq!(sel.choice, SyncChoice::Limiting(0, ProfileSource::Min));
}

#[test]
fn slowest_axis_dictates_the_duration() {
    let blocks = vec![
        Block::with_min(key(1.0)),
        Block::with_min(key(4.0)),
        Block::with_min(key(2.0)),
    ];
    let sync = vec![Synchronization::Time; 3];
    let sel = synchronize(&blocks, &sync, None).unwrap();
    assert_eq!(sel.time, key(4.0));
    assert_eq!(sel.choice, SyncChoice::Limiting(1, ProfileSource::Min));
}

#[test]
fn blocked_interval_pushes_selection_to_its_right_endpoint() {
    // The slowest minimum falls inside the other axis's blocked interval,
    // so the first admissible candidate is that interval's right endpoint.
    let blocks = vec![
        Block {
            t_min: key(1.0),
            a: Some(Interval::new(key(1.5), key(2.5))),
            b: None,
        },
        Block::with_min(key(2.0)),
    ];
    let sync = vec![Synchronization::Time; 2];
    let sel = synchronize(&blocks, &sync, None).unwrap();
    assert_eq!(sel.time, key(2.5));
    assert_eq!(sel.choice, SyncChoice::Limiting(0, ProfileSource::RightOfA));
}

#[test]
fn minimum_duration_wins_when_it_is_longest() {
    let blocks = vec![Block::with_min(key(1.0)), Block::with_min(key(2.0))];
    let sync = vec![Synchronization::Time; 2];
    let sel = synchronize(&blocks, &sync, Some(key(3.5))).unwrap();
    assert_eq!(sel.time, key(3.5));
    assert_eq!(sel.choice, SyncChoice::MinimumDuration);
}

#[test]
fn unsynchronized_axis_is_ignored() {
    // The unsynchronized axis neither contributes its minimum nor blocks.
    let blocks = vec![
        Block::with_min(key(9.0)),
        Block::with_min(key(2.0)),
    ];
    let sync = vec![Synchronization::No, Synchronization::Time];
    let sel = synchronize(&blocks, &sync, None).unwrap();
    assert_eq!(sel.time, key(2.0));
    assert_eq!(sel.choice, SyncChoice::Limiting(1, ProfileSource::Min));
}

#[test]
fn equal_minima_break_ties_like_a_stable_scan() {
    // Both axes share the minimum; the scan that starts at the last axis
    // minimum settles on the second axis.
    let blocks = vec![Block::with_min(key(5.0)), Block::with_min(key(5.0))];
    let sync = vec![Synchronization::Time; 2];
    let sel = synchronize(&blocks, &sync, None).unwrap();
    assert_eq!(sel.time, key(5.0));
    assert_eq!(sel.choice, SyncChoice::Limiting(1, ProfileSource::Min));
}

#[test]
fn candidate_layout_is_per_axis_then_intervals_then_minimum() {
    let blocks = vec![
        Block {
            t_min: key(1.0),
            a: Some(Interval::new(key(1.5), key(2.5))),
            b: Some(Interval::new(key(3.0), key(4.0))),
        },
        Block::with_min(key(2.0)),
    ];
    let sync = vec![Synchronization::Time; 2];
    let c = sync_candidates(&blocks, &sync, Some(key(0.5)));
    assert_eq!(
        c,
        vec![
            Some(key(1.0)),
            Some(key(2.0)),
            Some(key(2.5)),
            None,
            Some(key(4.0)),
            None,
            Some(key(0.5)),
        ]
    );
}

#[test]
fn no_admissible_candidate_reports_failure() {
    // The only candidate lies below the axis minimum, so nothing can be
    // selected.
    let blocks = vec![Block::with_min(key(2.0))];
    let sync = vec![Synchronization::Time];
    let candidates = vec![Some(key(1.0)), None, None, None];
    assert!(select_sync_time(&candidates, &blocks, &sync, None).is_none());
}

#[test]
fn rounded_candidates_select_discrete_duration() {
    // Discrete durations: the caller rounds every candidate up to the next
    // control cycle before the selection.
    let blocks = vec![Block::with_min(key(4.446)), Block::with_min(key(1.0))];
    let sync = vec![Synchronization::Time; 2];
    let candidates = vec![
        Some(key(4.45)),
        Some(key(1.0)),
        None,
        None,
        None,
        None,
        None,
    ];
    let sel = select_sync_time(&candidates, &blocks, &sync, None).unwrap();
    assert_eq!(sel.time, key(4.45));
    assert_eq!(sel.choice, SyncChoice::Limiting(0, ProfileSource::Min));
}
