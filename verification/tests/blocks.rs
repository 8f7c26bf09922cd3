use rsruckig::Block;
use rsruckig::Direction;
use rsruckig::Interval;
use rsruckig::ProfileSource;
use rsruckig::normalize_zero_bits;
use rsruckig::section_index;
use rsruckig::segment_index;
use rsruckig::total_order_key;

fn key(x: f64) -> u64 {
    total_order_key(normalize_zero_bits(x.to_bits()))
}

#[test]
fn blocked_durations() {
    let block = Block {
        t_min: key(1.0),
        a: Some(Interval::new(key(1.5), key(2.5))),
        b: Some(Interval::new(key(3.0), key(4.0))),
    };
    assert!(block.is_blocked(key(0.5)));
    assert!(!block.is_blocked(key(1.0)));
    assert!(!block.is_blocked(key(1.5)));
    assert!(block.is_blocked(key(2.0)));
    assert!(!block.is_blocked(key(2.5)));
    assert!(block.is_blocked(key(3.5)));
    assert!(!block.is_blocked(key(4.0)));
    assert!(!block.is_blocked(key(10.0)));
}

#[test]
fn profile_for_duration_moves_right_over_the_intervals() {
    let block = Block {
        t_min: key(1.0),
        a: Some(Interval::new(key(1.5), key(2.5))),
        b: Some(Interval::new(key(3.0), key(4.0))),
    };
    assert_eq!(block.get_profile(key(1.0)), ProfileSource::Min);
    assert_eq!(block.get_profile(key(2.4)), ProfileSource::Min);
    assert_eq!(block.get_profile(key(2.5)), ProfileSource::RightOfA);
    assert_eq!(block.get_profile(key(3.9)), ProfileSource::RightOfA);
    assert_eq!(block.get_profile(key(4.0)), ProfileSource::RightOfB);
    assert_eq!(block.get_profile(key(99.0)), ProfileSource::RightOfB);
}

#[test]
fn set_min_profile_clears_intervals() {
    let mut block = Block {
        t_min: key(1.0),
        a: Some(Interval::new(key(1.5), key(2.5))),
        b: None,
    };
    block.set_min_profile(key(6.25));
    assert_eq!(block.t_min, key(6.25));
    assert!(block.a.is_none());
    assert!(block.b.is_none());
}

#[test]
fn section_lookup_finds_first_later_end_time() {
    let times = vec![key(1.0), key(2.5), key(4.0)];
    assert_eq!(section_index(&times, key(0.0)), 0);
    assert_eq!(section_index(&times, key(0.99)), 0);
    assert_eq!(section_index(&times, key(1.0)), 1);
    assert_eq!(section_index(&times, key(3.0)), 2);
    assert_eq!(section_index(&times, key(4.0)), 3);
    assert_eq!(section_index(&times, key(9.0)), 3);
}

#[test]
fn segment_lookup_caps_at_the_last_segment() {
    // Prefix sums of the seven segment durations of one profile.
    let t_sum = vec![
        key(0.2),
        key(0.2),
        key(0.7),
        key(1.7),
        key(2.2),
        key(2.2),
        key(2.7),
    ];
    assert_eq!(segment_index(&t_sum, key(0.0)), 0);
    assert_eq!(segment_index(&t_sum, key(0.2)), 2);
    assert_eq!(segment_index(&t_sum, key(1.0)), 3);
    assert_eq!(segment_index(&t_sum, key(2.69)), 6);
    assert_eq!(segment_index(&t_sum, key(5.0)), 6);
}

#[test]
fn block_structure_of_one_candidate_is_trivial() {
    let r = Block::calculate_block(&vec![key(2.0)], &vec![Direction::UP]).unwrap();
    assert_eq!(r.block, Block::with_min(key(2.0)));
    assert_eq!(r.p_min_index, 0);
    assert!(r.a_pair.is_none());
    assert!(r.b_pair.is_none());
}

#[test]
fn block_structure_of_three_candidates_blocks_the_gap() {
    // The shortest candidate becomes the minimum; the other two bound one
    // blocked interval, realized by the longer of them.
    let durations = vec![key(3.0), key(1.0), key(2.0)];
    let directions = vec![Direction::UP, Direction::UP, Direction::DOWN];
    let r = Block::calculate_block(&durations, &directions).unwrap();
    assert_eq!(r.p_min_index, 1);
    assert_eq!(r.block.t_min, key(1.0));
    assert_eq!(r.block.a, Some(Interval::new(key(2.0), key(3.0))));
    assert_eq!(r.a_pair, Some((2, 0)));
    assert_eq!(r.block.b, None);
}

#[test]
fn block_structure_of_five_candidates_pairs_by_direction() {
    // After the minimum, the next two candidates share a direction and
    // bound the first interval; the remaining two bound the second.
    let durations = vec![key(1.0), key(2.0), key(3.0), key(4.0), key(5.0)];
    let directions = vec![
        Direction::UP,
        Direction::DOWN,
        Direction::DOWN,
        Direction::UP,
        Direction::UP,
    ];
    let r = Block::calculate_block(&durations, &directions).unwrap();
    assert_eq!(r.p_min_index, 0);
    assert_eq!(r.block.a, Some(Interval::new(key(2.0), key(3.0))));
    assert_eq!(r.block.b, Some(Interval::new(key(4.0), key(5.0))));
    // With mixed directions the first pairs with the fourth instead.
    let directions = vec![
        Direction::UP,
        Direction::DOWN,
        Direction::UP,
        Direction::DOWN,
        Direction::UP,
    ];
    let r = Block::calculate_block(&durations, &directions).unwrap();
    assert_eq!(r.block.a, Some(Interval::new(key(2.0), key(5.0))));
    assert_eq!(r.a_pair, Some((1, 4)));
    assert_eq!(r.block.b, Some(Interval::new(key(3.0), key(4.0))));
}

#[test]
fn block_structure_rejects_unresolved_even_counts() {
    let durations = vec![key(1.0), key(2.0), key(3.0), key(4.0)];
    let directions = vec![Direction::UP; 4];
    assert!(Block::calculate_block(&durations, &directions).is_none());
}
