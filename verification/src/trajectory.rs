//! Locating the section and segment that contain a sampling time.
//!
//! Sampling a trajectory at a time first locates the section whose
//! cumulative end time lies beyond it, then, inside one axis's profile, the
//! segment whose prefix-sum end time lies beyond the local offset. Both
//! lookups are pure order searches; the arithmetic that turns the located
//! index into a kinematic state stays with the caller. Times are
//! order-preserving keys (see [`crate::float_key`]).

use vstd::prelude::*;

verus! {

/// The index of the section that contains the time `time`: the first index
/// whose cumulative end time lies strictly beyond `time`, or the number of
/// sections when `time` lies at or beyond every end time.
pub fn section_index(cumulative_times: &Vec<u64>, time: u64) -> (r: usize)
    ensures
        r <= cumulative_times@.len(),
        forall|k: int| 0 <= k < r ==> #[trigger] cumulative_times@[k] <= time,
        r < cumulative_times@.len() ==> cumulative_times@[r as int] > time,
{
    let mut i: usize = 0;
    while i < cumulative_times.len()
        invariant
            i <= cumulative_times@.len(),
            forall|k: int| 0 <= k < i ==> #[trigger] cumulative_times@[k] <= time,
        decreases cumulative_times@.len() - i,
    {
        if cumulative_times[i] > time {
            return i;
        }
        i = i + 1;
    }
    i
}

/// The index of the profile segment that contains the local offset `time`:
/// the first index whose prefix-sum end time lies strictly beyond `time`,
/// capped at the last segment when `time` lies at or beyond every end time.
pub fn segment_index(t_sum: &Vec<u64>, time: u64) -> (r: usize)
    requires
        t_sum@.len() >= 1,
    ensures
        r < t_sum@.len(),
        forall|k: int| 0 <= k < r ==> #[trigger] t_sum@[k] <= time,
        r < t_sum@.len() - 1 ==> t_sum@[r as int] > time,
{
    let mut i: usize = 0;
    while i < t_sum.len()
        invariant
            t_sum@.len() >= 1,
            i <= t_sum@.len(),
            forall|k: int| 0 <= k < i ==> #[trigger] t_sum@[k] <= time,
        decreases t_sum@.len() - i,
    {
        if t_sum[i] > time {
            return i;
        }
        i = i + 1;
    }
    t_sum.len() - 1
}

/// Repeating either lookup with the same arguments yields the same index:
/// sampling is free of hidden state.
pub proof fn lemma_lookup_deterministic(times: Seq<u64>, time: u64, r1: usize, r2: usize)
    requires
        r1 <= times.len(),
        forall|k: int| 0 <= k < r1 ==> #[trigger] times[k] <= time,
        r1 < times.len() ==> times[r1 as int] > time,
        r2 <= times.len(),
        forall|k: int| 0 <= k < r2 ==> #[trigger] times[k] <= time,
        r2 < times.len() ==> times[r2 as int] > time,
    ensures
        r1 == r2,
{
    if r1 < r2 {
        assert(times[r1 as int] <= time);
    }
    if r2 < r1 {
        assert(times[r2 as int] <= time);
    }
}

} // verus!
