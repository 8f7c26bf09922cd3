//! Selection of a common synchronized duration.
//!
//! Each synchronized axis contributes up to three candidate durations: its
//! minimum duration and the right endpoints of its blocked intervals; an
//! optional minimum trajectory duration is one more candidate. The selected
//! duration is the smallest admissible candidate: one that no synchronized
//! axis blocks and that is not below the required minimum. Ties between
//! candidates of equal duration are broken exactly as a stable ascending
//! scan that starts at the position of the last axis minimum would break
//! them. Durations are order-preserving keys (see [`crate::float_key`]).

use vstd::prelude::*;

use crate::block::Block;
use crate::block::Interval;
use crate::block::ProfileSource;
use crate::float_key::ZERO_KEY;
use crate::input_parameter::Synchronization;

verus! {

/// What realizes a selected synchronization time.
#[derive(Debug, Clone, Copy, PartialEq, Eq, Structural)]
pub enum SyncChoice {
    /// The time is realized by a stored profile of the named axis, which
    /// therefore needs no second calculation step.
    Limiting(usize, ProfileSource),
    /// The time is the requested minimum trajectory duration; every axis
    /// needs a second calculation step.
    MinimumDuration,
}

/// A selected synchronization time together with what realizes it.
#[derive(Debug, Clone, Copy, PartialEq, Eq, Structural)]
pub struct SyncSelection {
    /// Key of the selected duration.
    pub time: u64,
    /// What realizes the selected duration.
    pub choice: SyncChoice,
}

/// The lower bound that a candidate must reach: the requested minimum
/// duration, or zero when none is requested.
pub open spec fn spec_min_time_bound(t_min: Option<u64>) -> u64 {
    match t_min {
        Some(m) => m,
        None => ZERO_KEY,
    }
}

/// A duration is admissible when no synchronized axis blocks it and it is
/// not below the required minimum.
pub open spec fn spec_time_admissible(
    t: u64,
    blocks: Seq<Block>,
    sync: Seq<Synchronization>,
    t_min: Option<u64>,
) -> bool {
    &&& forall|d: int|
        0 <= d < blocks.len() && sync[d] != Synchronization::No ==> !(
        #[trigger] blocks[d]).spec_is_blocked(t)
    &&& t >= spec_min_time_bound(t_min)
}

/// The right endpoint of an optional blocked interval.
pub open spec fn spec_interval_right(iv: Option<Interval>) -> Option<u64> {
    match iv {
        Some(i) => Some(i.right),
        None => None,
    }
}

/// The candidate durations: per axis its minimum duration (zero for an
/// unsynchronized axis), then per axis the right endpoint of its first
/// blocked interval, then of its second, then the requested minimum
/// duration. An unsynchronized axis contributes no interval endpoints.
pub open spec fn spec_sync_candidates(
    blocks: Seq<Block>,
    sync: Seq<Synchronization>,
    t_min: Option<u64>,
) -> Seq<Option<u64>> {
    let n = blocks.len() as int;
    Seq::new(
        (3 * n + 1) as nat,
        |i: int|
            {
                if i < n {
                    if sync[i] == Synchronization::No {
                        Some(ZERO_KEY)
                    } else {
                        Some(blocks[i].t_min)
                    }
                } else if i < 2 * n {
                    if sync[i - n] == Synchronization::No {
                        None
                    } else {
                        spec_interval_right(blocks[i - n].a)
                    }
                } else if i < 3 * n {
                    if sync[i - 2 * n] == Synchronization::No {
                        None
                    } else {
                        spec_interval_right(blocks[i - 2 * n].b)
                    }
                } else {
                    t_min
                }
            },
    )
}

/// How many of the first `n` candidates hold a duration strictly below `t`.
pub open spec fn spec_count_lt(candidates: Seq<Option<u64>>, t: u64, n: int) -> int
    decreases n,
{
    if n <= 0 {
        0
    } else {
        spec_count_lt(candidates, t, n - 1) + match candidates[n - 1] {
            Some(v) => if v < t {
                1int
            } else {
                0int
            },
            None => 0int,
        }
    }
}

/// How many of the first `n` candidates hold the duration `t`.
pub open spec fn spec_count_eq(candidates: Seq<Option<u64>>, t: u64, n: int) -> int
    decreases n,
{
    if n <= 0 {
        0
    } else {
        spec_count_eq(candidates, t, n - 1) + match candidates[n - 1] {
            Some(v) => if v == t {
                1int
            } else {
                0int
            },
            None => 0int,
        }
    }
}

/// The choice that candidate index `i` stands for, with `dofs` axes: the
/// first block of indices names axis minimum durations, the second the right
/// endpoints of the first blocked intervals, the third those of the second
/// blocked intervals, and the last index the requested minimum duration.
pub open spec fn spec_choice_of_index(i: int, dofs: int) -> SyncChoice {
    if i < dofs {
        SyncChoice::Limiting(i as usize, ProfileSource::Min)
    } else if i < 2 * dofs {
        SyncChoice::Limiting((i - dofs) as usize, ProfileSource::RightOfA)
    } else if i < 3 * dofs {
        SyncChoice::Limiting((i - 2 * dofs) as usize, ProfileSource::RightOfB)
    } else {
        SyncChoice::MinimumDuration
    }
}

/// Among the candidates that hold the selected duration, the rank of the one
/// that a stable ascending scan starting at position `dofs - 1` meets first:
/// the scan start absorbs candidates strictly below the selected duration,
/// and the rank never exceeds the last equal candidate.
pub open spec fn spec_tie_rank(candidates: Seq<Option<u64>>, t: u64, dofs: int) -> int {
    let below = spec_count_lt(candidates, t, candidates.len() as int);
    let equal = spec_count_eq(candidates, t, candidates.len() as int);
    let start = if dofs - 1 - below >= 0 {
        dofs - 1 - below
    } else {
        0
    };
    if start <= equal - 1 {
        start
    } else {
        equal - 1
    }
}

/// What a successful selection guarantees: the time is admissible, it is the
/// smallest admissible candidate, and the choice names the candidate of that
/// time whose rank matches the stable-scan tie break.
pub open spec fn spec_selection_valid(
    candidates: Seq<Option<u64>>,
    blocks: Seq<Block>,
    sync: Seq<Synchronization>,
    t_min: Option<u64>,
    sel: SyncSelection,
) -> bool {
    &&& spec_time_admissible(sel.time, blocks, sync, t_min)
    &&& forall|i: int|
        0 <= i < candidates.len() ==> match #[trigger] candidates[i] {
            Some(v) => spec_time_admissible(v, blocks, sync, t_min) ==> sel.time <= v,
            None => true,
        }
    &&& exists|i: int|
        0 <= i < candidates.len() && #[trigger] candidates[i] == Some(sel.time) && sel.choice
            == spec_choice_of_index(i, blocks.len() as int) && spec_count_eq(candidates, sel.time, i)
            == spec_tie_rank(candidates, sel.time, blocks.len() as int)
}

/// A count over a prefix is never negative.
proof fn lemma_count_eq_nonneg(candidates: Seq<Option<u64>>, t: u64, n: int)
    ensures
        spec_count_eq(candidates, t, n) >= 0,
    decreases n,
{
    if n > 0 {
        lemma_count_eq_nonneg(candidates, t, n - 1);
    }
}

/// A candidate that occurs in the sequence is counted at least once.
proof fn lemma_count_eq_contains(candidates: Seq<Option<u64>>, t: u64, idx: int, n: int)
    requires
        0 <= idx < n <= candidates.len(),
        candidates[idx] == Some(t),
    ensures
        spec_count_eq(candidates, t, n) >= 1,
    decreases n,
{
    if idx < n - 1 {
        lemma_count_eq_contains(candidates, t, idx, n - 1);
    } else {
        lemma_count_eq_nonneg(candidates, t, n - 1);
    }
}

/// Whether `t` is admissible: no synchronized axis blocks it and it is not
/// below the required minimum.
pub fn time_admissible(
    t: u64,
    blocks: &Vec<Block>,
    sync: &Vec<Synchronization>,
    t_min: Option<u64>,
) -> (r: bool)
    requires
        sync@.len() == blocks@.len(),
    ensures
        r == spec_time_admissible(t, blocks@, sync@, t_min),
{
    let mut d: usize = 0;
    while d < blocks.len()
        invariant
            sync@.len() == blocks@.len(),
            d <= blocks@.len(),
            forall|k: int|
                0 <= k < d && sync@[k] != Synchronization::No ==> !(
                #[trigger] blocks@[k]).spec_is_blocked(t),
        decreases blocks@.len() - d,
    {
        if sync[d] != Synchronization::No && blocks[d].is_blocked(t) {
            return false;
        }
        d = d + 1;
    }
    match t_min {
        Some(m) => t >= m,
        None => t >= ZERO_KEY,
    }
}

/// Collect the candidate durations of all axes and the requested minimum
/// duration, in the layout of [`spec_sync_candidates`].
pub fn sync_candidates(
    blocks: &Vec<Block>,
    sync: &Vec<Synchronization>,
    t_min: Option<u64>,
) -> (r: Vec<Option<u64>>)
    requires
        sync@.len() == blocks@.len(),
    ensures
        r@ == spec_sync_candidates(blocks@, sync@, t_min),
{
    let n = blocks.len();
    let ghost model = spec_sync_candidates(blocks@, sync@, t_min);
    let mut r: Vec<Option<u64>> = Vec::new();
    let mut d: usize = 0;
    while d < n
        invariant
            sync@.len() == blocks@.len(),
            n == blocks@.len(),
            d <= n,
            model == spec_sync_candidates(blocks@, sync@, t_min),
            r@.len() == d,
            forall|k: int| 0 <= k < d ==> r@[k] == model[k],
        decreases n - d,
    {
        if sync[d] == Synchronization::No {
            r.push(Some(ZERO_KEY));
        } else {
            r.push(Some(blocks[d].t_min));
        }
        d = d + 1;
    }
    d = 0;
    while d < n
        invariant
            sync@.len() == blocks@.len(),
            n == blocks@.len(),
            d <= n,
            model == spec_sync_candidates(blocks@, sync@, t_min),
            r@.len() == n + d,
            forall|k: int| 0 <= k < n + d ==> r@[k] == model[k],
        decreases n - d,
    {
        if sync[d] == Synchronization::No {
            r.push(None);
        } else {
            match &blocks[d].a {
                Some(ia) => r.push(Some(ia.right)),
                None => r.push(None),
            }
        }
        d = d + 1;
    }
    d = 0;
    while d < n
        invariant
            sync@.len() == blocks@.len(),
            n == blocks@.len(),
            d <= n,
            model == spec_sync_candidates(blocks@, sync@, t_min),
            r@.len() == 2 * n + d,
            forall|k: int| 0 <= k < 2 * n + d ==> r@[k] == model[k],
        decreases n - d,
    {
        if sync[d] == Synchronization::No {
            r.push(None);
        } else {
            match &blocks[d].b {
                Some(ib) => r.push(Some(ib.right)),
                None => r.push(None),
            }
        }
        d = d + 1;
    }
    r.push(t_min);
    proof {
        assert(r@ =~= model);
    }
    r
}

/// Select the synchronization time from the given candidates: the smallest
/// admissible one, with ties broken as a stable ascending scan starting at
/// the position of the last axis minimum breaks them. Returns nothing when
/// no candidate is admissible.
pub fn select_sync_time(
    candidates: &Vec<Option<u64>>,
    blocks: &Vec<Block>,
    sync: &Vec<Synchronization>,
    t_min: Option<u64>,
) -> (r: Option<SyncSelection>)
    requires
        blocks@.len() >= 1,
        sync@.len() == blocks@.len(),
        candidates@.len() == 3 * blocks@.len() + 1,
    ensures
        r matches Some(sel) ==> spec_selection_valid(candidates@, blocks@, sync@, t_min, sel),
        r is None ==> forall|i: int|
            0 <= i < candidates@.len() ==> match #[trigger] candidates@[i] {
                Some(v) => !spec_time_admissible(v, blocks@, sync@, t_min),
                None => true,
            },
{
    let len = candidates.len();
    let dofs = blocks.len();

    let mut best: Option<u64> = None;
    let mut i: usize = 0;
    while i < len
        invariant
            sync@.len() == blocks@.len(),
            len == candidates@.len(),
            i <= len,
            best is None ==> forall|k: int|
                0 <= k < i ==> match #[trigger] candidates@[k] {
                    Some(v) => !spec_time_admissible(v, blocks@, sync@, t_min),
                    None => true,
                },
            best matches Some(b) ==> spec_time_admissible(b, blocks@, sync@, t_min) && (exists|
                k: int,
            |
                0 <= k < i && #[trigger] candidates@[k] == Some(b)) && forall|k: int|
                0 <= k < i ==> match #[trigger] candidates@[k] {
                    Some(v) => spec_time_admissible(v, blocks@, sync@, t_min) ==> b <= v,
                    None => true,
                },
        decreases len - i,
    {
        if let Some(t) = candidates[i] {
            if time_admissible(t, blocks, sync, t_min) {
                best = match best {
                    None => Some(t),
                    Some(b) => if t < b {
                        Some(t)
                    } else {
                        Some(b)
                    },
                };
            }
        }
        i = i + 1;
    }

    let tstar = match best {
        None => {
            return None;
        },
        Some(t) => t,
    };

    let mut below: usize = 0;
    i = 0;
    while i < len
        invariant
            len == candidates@.len(),
            i <= len,
            below == spec_count_lt(candidates@, tstar, i as int),
            below <= i,
        decreases len - i,
    {
        if let Some(v) = candidates[i] {
            if v < tstar {
                below = below + 1;
            }
        }
        i = i + 1;
    }

    let mut equal: usize = 0;
    i = 0;
    while i < len
        invariant
            len == candidates@.len(),
            i <= len,
            equal == spec_count_eq(candidates@, tstar, i as int),
            equal <= i,
        decreases len - i,
    {
        if let Some(v) = candidates[i] {
            if v == tstar {
                equal = equal + 1;
            }
        }
        i = i + 1;
    }
    proof {
        let k = choose|k: int| 0 <= k < candidates@.len() && candidates@[k] == Some(tstar);
        lemma_count_eq_contains(candidates@, tstar, k, candidates@.len() as int);
    }
    assert(equal >= 1);

    let start: usize = if below + 1 >= dofs {
        0
    } else {
        dofs - 1 - below
    };
    let rank: usize = if start <= equal - 1 {
        start
    } else {
        equal - 1
    };
    assert(rank == spec_tie_rank(candidates@, tstar, blocks@.len() as int));

    let mut seen: usize = 0;
    i = 0;
    let mut sel_index: usize = 0;
    let mut found = false;
    while i < len
        invariant
            len == candidates@.len(),
            i <= len,
            rank < spec_count_eq(candidates@, tstar, len as int),
            !found ==> seen == spec_count_eq(candidates@, tstar, i as int) && seen <= rank,
            found ==> 0 <= sel_index < len && candidates@[sel_index as int] == Some(tstar)
                && spec_count_eq(candidates@, tstar, sel_index as int) == rank,
        decreases len - i,
    {
        if !found {
            if let Some(v) = candidates[i] {
                if v == tstar {
                    if seen == rank {
                        sel_index = i;
                        found = true;
                    } else {
                        seen = seen + 1;
                    }
                }
            }
        }
        i = i + 1;
    }
    assert(found);

    let choice = if sel_index < dofs {
        SyncChoice::Limiting(sel_index, ProfileSource::Min)
    } else if sel_index < 2 * dofs {
        SyncChoice::Limiting(sel_index - dofs, ProfileSource::RightOfA)
    } else if sel_index < 3 * dofs {
        SyncChoice::Limiting(sel_index - 2 * dofs, ProfileSource::RightOfB)
    } else {
        SyncChoice::MinimumDuration
    };
    assert(choice == spec_choice_of_index(sel_index as int, blocks@.len() as int));
    Some(SyncSelection { time: tstar, choice })
}

/// Collect the candidates and select the synchronization time in one step.
pub fn synchronize(blocks: &Vec<Block>, sync: &Vec<Synchronization>, t_min: Option<u64>) -> (r:
    Option<SyncSelection>)
    requires
        blocks@.len() >= 1,
        sync@.len() == blocks@.len(),
    ensures
        r matches Some(sel) ==> spec_selection_valid(
            spec_sync_candidates(blocks@, sync@, t_min),
            blocks@,
            sync@,
            t_min,
            sel,
        ),
        r is None ==> forall|i: int|
            0 <= i < spec_sync_candidates(blocks@, sync@, t_min).len() ==> match #[trigger] spec_sync_candidates(
                blocks@,
                sync@,
                t_min,
            )[i] {
                Some(v) => !spec_time_admissible(v, blocks@, sync@, t_min),
                None => true,
            },
{
    let candidates = sync_candidates(blocks, sync, t_min);
    select_sync_time(&candidates, blocks, sync, t_min)
}


/// A selected synchronization time is never below the minimum duration of
/// any synchronized axis: those minima are the lower bound of any common
/// duration.
pub proof fn lemma_selection_bounds_axis_minima(
    candidates: Seq<Option<u64>>,
    blocks: Seq<Block>,
    sync: Seq<Synchronization>,
    t_min: Option<u64>,
    sel: SyncSelection,
)
    requires
        spec_selection_valid(candidates, blocks, sync, t_min, sel),
    ensures
        forall|d: int|
            0 <= d < blocks.len() && sync[d] != Synchronization::No ==> sel.time >= (
            #[trigger] blocks[d]).t_min,
        sel.time >= spec_min_time_bound(t_min),
{
}

/// With a single synchronized axis, a well-formed feasibility structure and
/// no requested minimum duration, every valid selection picks exactly the
/// axis's own minimum duration and its minimum-duration profile: the
/// synchronized trajectory is time-optimal.
pub proof fn lemma_single_dof_time_optimal(b: Block, s: Synchronization, sel: SyncSelection)
    requires
        b.spec_wf(),
        b.t_min >= ZERO_KEY,
        s != Synchronization::No,
        spec_selection_valid(
            spec_sync_candidates(seq![b], seq![s], None),
            seq![b],
            seq![s],
            None,
            sel,
        ),
    ensures
        sel.time == b.t_min,
        sel.choice == SyncChoice::Limiting(0, ProfileSource::Min),
{
    let blocks = seq![b];
    let sync = seq![s];
    let c = spec_sync_candidates(blocks, sync, None);
    assert(c.len() == 4);
    assert(c[0] == Some(b.t_min));
    assert(c[1] == spec_interval_right(b.a));
    assert(c[2] == spec_interval_right(b.b));
    assert(c[3] == Option::<u64>::None);

    // The axis minimum itself is admissible, so the selected time is at most
    // the minimum; not being blocked it is also at least the minimum.
    b.lemma_min_duration_not_blocked();
    assert(spec_time_admissible(b.t_min, blocks, sync, None));
    assert(sel.time <= b.t_min);
    assert(!b.spec_is_blocked(sel.time));
    assert(sel.time == b.t_min);

    // The interval endpoints lie strictly beyond the minimum, so the only
    // candidate holding the selected time is the axis minimum itself.
    assert(match b.a {
        Some(ia) => ia.right > b.t_min,
        None => true,
    });
    assert(match b.b {
        Some(ib) => ib.right > b.t_min,
        None => true,
    });
    let i = choose|i: int|
        0 <= i < c.len() && #[trigger] c[i] == Some(sel.time) && sel.choice == spec_choice_of_index(
            i,
            1,
        ) && spec_count_eq(c, sel.time, i) == spec_tie_rank(c, sel.time, 1);
    assert(i == 0);
    assert(sel.choice == spec_choice_of_index(0, 1));
}

} // verus!
