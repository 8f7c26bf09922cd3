//! Feasible durations of one degree of freedom.
//!
//! For fixed limits and boundary states not every duration at or beyond the
//! minimum is realizable by a seven-segment profile: there are up to two open
//! intervals of durations in which no valid profile exists. A `Block` records
//! the minimum duration and those blocked intervals. Durations are handled as
//! order-preserving keys (see [`crate::float_key`]).

use vstd::prelude::*;

use crate::profile::Direction;

verus! {

/// An open interval `(left, right)` of blocked durations. The profile that
/// realizes the right endpoint is valid at and beyond `right`.
#[derive(Debug, Clone, Copy, PartialEq, Eq, Structural)]
pub struct Interval {
    /// Key of the left endpoint, excluded from the blocked range.
    pub left: u64,
    /// Key of the right endpoint, excluded from the blocked range.
    pub right: u64,
}

impl Interval {
    /// An interval is well formed when its endpoints are ordered.
    pub open spec fn spec_wf(self) -> bool {
        self.left < self.right
    }

    /// Whether `t` lies strictly inside the interval.
    pub open spec fn spec_contains(self, t: u64) -> bool {
        self.left < t < self.right
    }

    /// Build the interval `(left, right)`.
    pub fn new(left: u64, right: u64) -> (r: Self)
        requires
            left < right,
        ensures
            r.left == left,
            r.right == right,
            r.spec_wf(),
    {
        Interval { left, right }
    }
}

/// Which of the feasible profiles of a block realizes a chosen duration.
#[derive(Debug, Clone, Copy, PartialEq, Eq, Structural)]
pub enum ProfileSource {
    /// The profile that realizes the minimum duration.
    Min,
    /// The profile valid at and beyond the right endpoint of the first
    /// blocked interval.
    RightOfA,
    /// The profile valid at and beyond the right endpoint of the second
    /// blocked interval.
    RightOfB,
}

/// The feasible-duration structure of one degree of freedom: the minimum
/// duration and up to two blocked intervals beyond it.
#[derive(Debug, Clone, Copy, PartialEq, Eq, Structural)]
pub struct Block {
    /// Key of the shortest feasible duration.
    pub t_min: u64,
    /// First blocked interval, if any.
    pub a: Option<Interval>,
    /// Second blocked interval, if any.
    pub b: Option<Interval>,
}

impl Block {
    /// A block is well formed when its intervals are ordered, lie at or
    /// beyond the minimum duration, and the first precedes the second.
    pub open spec fn spec_wf(self) -> bool {
        &&& match self.a {
            Some(ia) => ia.spec_wf() && ia.left >= self.t_min,
            None => true,
        }
        &&& match self.b {
            Some(ib) => ib.spec_wf() && ib.left >= self.t_min,
            None => true,
        }
        &&& match (self.a, self.b) {
            (Some(ia), Some(ib)) => ia.right <= ib.left,
            _ => true,
        }
    }

    /// A duration is blocked when it is below the minimum duration or falls
    /// strictly inside a blocked interval.
    pub open spec fn spec_is_blocked(self, t: u64) -> bool {
        ||| t < self.t_min
        ||| (self.a matches Some(ia) && ia.spec_contains(t))
        ||| (self.b matches Some(ib) && ib.spec_contains(t))
    }

    /// A block that admits every duration at or beyond `t_min`.
    pub fn with_min(t_min: u64) -> (r: Self)
        ensures
            r.t_min == t_min,
            r.a is None,
            r.b is None,
            r.spec_wf(),
    {
        Block { t_min, a: None, b: None }
    }

    /// Record a new minimum duration and forget the blocked intervals.
    pub fn set_min_profile(&mut self, t_min: u64)
        ensures
            final(self).t_min == t_min,
            final(self).a is None,
            final(self).b is None,
            final(self).spec_wf(),
    {
        self.t_min = t_min;
        self.a = None;
        self.b = None;
    }

    /// Whether the duration `t` is blocked.
    pub fn is_blocked(&self, t: u64) -> (r: bool)
        ensures
            r == self.spec_is_blocked(t),
    {
        if t < self.t_min {
            return true;
        }
        if let Some(ia) = &self.a {
            if ia.left < t && t < ia.right {
                return true;
            }
        }
        if let Some(ib) = &self.b {
            if ib.left < t && t < ib.right {
                return true;
            }
        }
        false
    }

    /// Which stored profile realizes the duration `t`: the one beyond the
    /// second interval when `t` has passed its right endpoint, else the one
    /// beyond the first interval when `t` has passed that right endpoint,
    /// else the minimum-duration profile.
    pub fn get_profile(&self, t: u64) -> (r: ProfileSource)
        ensures
            self.b matches Some(ib) && t >= ib.right ==> r == ProfileSource::RightOfB,
            !(self.b matches Some(ib) && t >= ib.right) && (self.a matches Some(ia) && t
                >= ia.right) ==> r == ProfileSource::RightOfA,
            !(self.b matches Some(ib) && t >= ib.right) && !(self.a matches Some(ia) && t
                >= ia.right) ==> r == ProfileSource::Min,
    {
        if let Some(ib) = &self.b {
            if t >= ib.right {
                return ProfileSource::RightOfB;
            }
        }
        if let Some(ia) = &self.a {
            if t >= ia.right {
                return ProfileSource::RightOfA;
            }
        }
        ProfileSource::Min
    }

    /// In a well-formed block the minimum duration itself is never blocked.
    pub proof fn lemma_min_duration_not_blocked(self)
        requires
            self.spec_wf(),
        ensures
            !self.spec_is_blocked(self.t_min),
    {
    }
}

/// The feasibility structure built from the valid extremal profiles of one
/// axis, together with which candidate realizes each of its parts.
#[derive(Debug, Clone, Copy)]
pub struct BlockStructure {
    /// The minimum duration and the blocked intervals.
    pub block: Block,
    /// The candidate that realizes the minimum duration.
    pub p_min_index: usize,
    /// The candidates bounding the first blocked interval, if any: first
    /// the shorter duration, then the longer one, whose profile realizes
    /// the right endpoint.
    pub a_pair: Option<(usize, usize)>,
    /// The candidates bounding the second blocked interval, if any, in the
    /// same order.
    pub b_pair: Option<(usize, usize)>,
}

/// The index of the shortest duration; on ties the last one, as a running
/// minimum that prefers later candidates settles them.
pub open spec fn spec_argmin_last(s: Seq<u64>) -> int
    decreases s.len(),
{
    if s.len() <= 1 {
        0
    } else {
        let rest = spec_argmin_last(s.drop_last());
        if s.last() <= s[rest] {
            s.len() - 1
        } else {
            rest
        }
    }
}

/// The candidates `i` and `j` ordered by duration: first the shorter, then
/// the longer; on equal durations the first argument counts as the longer.
pub open spec fn spec_ordered_pair(durations: Seq<u64>, i: int, j: int) -> (int, int) {
    if durations[i] < durations[j] {
        (i, j)
    } else {
        (j, i)
    }
}

/// The blocked interval that an ordered pair of candidates bounds.
pub open spec fn spec_interval_of_pair(durations: Seq<u64>, pair: (int, int)) -> Interval {
    Interval { left: durations[pair.0], right: durations[pair.1] }
}

/// The feasibility structure that a set of valid extremal profiles yields,
/// keyed by their total durations and directions. One candidate is trivial;
/// with two or three, the shortest wins and the others bound one blocked
/// interval; with five, the four others pair up into two intervals, grouped
/// by direction. Even counts above one are not resolved here: duplicates
/// must have been collapsed first, which is a tolerance question on the
/// durations and stays with the caller.
pub open spec fn spec_calculate_block(durations: Seq<u64>, directions: Seq<Direction>) -> Option<
    BlockStructure,
> {
    let n = durations.len() as int;
    if n == 1 {
        Some(
            BlockStructure {
                block: Block { t_min: durations[0], a: None, b: None },
                p_min_index: 0,
                a_pair: None,
                b_pair: None,
            },
        )
    } else if n == 2 || n == 3 {
        let m = spec_argmin_last(durations);
        let pa = spec_ordered_pair(durations, (m + 1) % n, (m + 2) % n);
        Some(
            BlockStructure {
                block: Block {
                    t_min: durations[m],
                    a: Some(spec_interval_of_pair(durations, pa)),
                    b: None,
                },
                p_min_index: m as usize,
                a_pair: Some((pa.0 as usize, pa.1 as usize)),
                b_pair: None,
            },
        )
    } else if n == 5 {
        let m = spec_argmin_last(durations);
        let i1 = (m + 1) % 5;
        let i2 = (m + 2) % 5;
        let i3 = (m + 3) % 5;
        let i4 = (m + 4) % 5;
        let pairs = if directions[i1] == directions[i2] {
            (spec_ordered_pair(durations, i1, i2), spec_ordered_pair(durations, i3, i4))
        } else {
            (spec_ordered_pair(durations, i1, i4), spec_ordered_pair(durations, i2, i3))
        };
        Some(
            BlockStructure {
                block: Block {
                    t_min: durations[m],
                    a: Some(spec_interval_of_pair(durations, pairs.0)),
                    b: Some(spec_interval_of_pair(durations, pairs.1)),
                },
                p_min_index: m as usize,
                a_pair: Some((pairs.0.0 as usize, pairs.0.1 as usize)),
                b_pair: Some((pairs.1.0 as usize, pairs.1.1 as usize)),
            },
        )
    } else {
        None
    }
}

/// The running minimum names a candidate in range whose duration is at or
/// below every other.
proof fn lemma_argmin_last_in_range(s: Seq<u64>, n: int)
    requires
        1 <= n,
        s.len() == n,
    ensures
        0 <= spec_argmin_last(s) < n,
        forall|k: int| 0 <= k < n ==> s[spec_argmin_last(s)] <= #[trigger] s[k],
    decreases n,
{
    if n > 1 {
        lemma_argmin_last_in_range(s.drop_last(), n - 1);
        assert forall|k: int| 0 <= k < n implies s[spec_argmin_last(s)] <= #[trigger] s[k] by {
            if k < n - 1 {
                assert(s.drop_last()[k] == s[k]);
                assert(s.drop_last()[spec_argmin_last(s.drop_last())] == s[spec_argmin_last(
                    s.drop_last(),
                )]);
            }
        }
    }
}

/// The index of the shortest duration; on ties the later candidate wins.
fn argmin_last(durations: &Vec<u64>) -> (r: usize)
    requires
        durations@.len() >= 1,
    ensures
        r == spec_argmin_last(durations@),
{
    let mut m: usize = 0;
    let mut i: usize = 1;
    while i < durations.len()
        invariant
            durations@.len() >= 1,
            1 <= i <= durations@.len(),
            m < i,
            m == spec_argmin_last(durations@.subrange(0, i as int)),
        decreases durations@.len() - i,
    {
        proof {
            lemma_argmin_last_in_range(durations@.subrange(0, i as int), i as int);
            assert(durations@.subrange(0, i + 1).drop_last() =~= durations@.subrange(0, i as int));
        }
        if durations[i] <= durations[m] {
            m = i;
        }
        i = i + 1;
    }
    proof {
        assert(durations@.subrange(0, durations@.len() as int) =~= durations@);
    }
    m
}

/// The candidates `i` and `j` ordered by duration, and the interval they
/// bound.
fn interval_of(durations: &Vec<u64>, i: usize, j: usize) -> (r: (Interval, (usize, usize)))
    requires
        i < durations@.len(),
        j < durations@.len(),
    ensures
        ({
            let pair = spec_ordered_pair(durations@, i as int, j as int);
            r.0 == spec_interval_of_pair(durations@, pair) && r.1.0 == pair.0 as usize && r.1.1
                == pair.1 as usize
        }),
{
    if durations[i] < durations[j] {
        (Interval { left: durations[i], right: durations[j] }, (i, j))
    } else {
        (Interval { left: durations[j], right: durations[i] }, (j, i))
    }
}

impl Block {
    /// Build the feasibility structure from the total durations and
    /// directions of the valid extremal profiles, as
    /// [`spec_calculate_block`] describes; nothing is built from an even
    /// count above one, whose duplicates the caller must collapse first.
    pub fn calculate_block(durations: &Vec<u64>, directions: &Vec<Direction>) -> (r: Option<
        BlockStructure,
    >)
        requires
            directions@.len() == durations@.len(),
        ensures
            r == spec_calculate_block(durations@, directions@),
    {
        let n = durations.len();
        if n == 1 {
            Some(
                BlockStructure {
                    block: Block { t_min: durations[0], a: None, b: None },
                    p_min_index: 0,
                    a_pair: None,
                    b_pair: None,
                },
            )
        } else if n == 2 || n == 3 {
            let m = argmin_last(durations);
            proof {
                lemma_argmin_last_in_range(durations@, n as int);
            }
            let (ia, pa) = interval_of(durations, (m + 1) % n, (m + 2) % n);
            Some(
                BlockStructure {
                    block: Block { t_min: durations[m], a: Some(ia), b: None },
                    p_min_index: m,
                    a_pair: Some(pa),
                    b_pair: None,
                },
            )
        } else if n == 5 {
            let m = argmin_last(durations);
            proof {
                lemma_argmin_last_in_range(durations@, n as int);
            }
            let i1 = (m + 1) % 5;
            let i2 = (m + 2) % 5;
            let i3 = (m + 3) % 5;
            let i4 = (m + 4) % 5;
            let (first, second) = if directions[i1] == directions[i2] {
                (interval_of(durations, i1, i2), interval_of(durations, i3, i4))
            } else {
                (interval_of(durations, i1, i4), interval_of(durations, i2, i3))
            };
            Some(
                BlockStructure {
                    block: Block {
                        t_min: durations[m],
                        a: Some(first.0),
                        b: Some(second.0),
                    },
                    p_min_index: m,
                    a_pair: Some(first.1),
                    b_pair: Some(second.1),
                },
            )
        } else {
            None
        }
    }
}

} // verus!
