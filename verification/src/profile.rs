//! Tags of a seven-segment jerk-limited profile and the jerk-sign templates.
//!
//! A third-order profile is a fixed template of seven segments: constant
//! jerk, zero jerk, opposite jerk, zero jerk, a fourth jerk phase, zero jerk,
//! and a closing jerk phase. The `limits` tag names which kinematic bounds
//! are saturated during the zero-jerk plateaus, the `control_signs` tag names
//! the sign pattern of the jerk phases, and the `direction` tag names whether
//! the profile moves towards the upper or the lower bounds.

use vstd::prelude::*;

verus! {

/// Which kinematic limits are reached during the profile.
#[derive(Debug, Clone, Copy, PartialEq, Eq, Structural)]
pub enum ReachedLimits {
    /// The first acceleration plateau, the second one, and the velocity
    /// plateau are all saturated.
    Acc0Acc1Vel,
    /// The velocity plateau is saturated.
    Vel,
    /// The first acceleration plateau and the velocity plateau are saturated.
    Acc0Vel,
    /// The second acceleration plateau and the velocity plateau are saturated.
    Acc1Vel,
    /// Both acceleration plateaus are saturated.
    Acc0Acc1,
    /// The first acceleration plateau is saturated.
    Acc0,
    /// The second acceleration plateau is saturated.
    Acc1,
    /// No limit is reached.
    NoLimits,
}

impl Default for ReachedLimits {
    /// A fresh profile has not reached any limit.
    fn default() -> (r: Self)
        ensures
            r == ReachedLimits::NoLimits,
    {
        ReachedLimits::NoLimits
    }
}

/// Direction of the profile: towards the upper or the lower bounds.
#[derive(Debug, Clone, Copy, PartialEq, Eq, Structural)]
pub enum Direction {
    /// The profile moves towards the maximum limits.
    UP,
    /// The profile moves towards the minimum limits.
    DOWN,
}

impl Default for Direction {
    /// A fresh profile moves towards the maximum limits.
    fn default() -> (r: Self)
        ensures
            r == Direction::UP,
    {
        Direction::UP
    }
}

/// The jerk-sign pattern across the seven segments.
#[derive(Debug, Clone, Copy, PartialEq, Eq, Structural)]
pub enum ControlSigns {
    /// Jerk phases signed up, down, down, up.
    UDDU,
    /// Jerk phases signed up, down, up, down.
    UDUD,
}

impl Default for ControlSigns {
    /// The default pattern is up, down, down, up.
    fn default() -> (r: Self)
        ensures
            r == ControlSigns::UDDU,
    {
        ControlSigns::UDDU
    }
}

/// The sign (`+1`, `0`, or `-1`) that the template assigns to the jerk of
/// segment `index`, before scaling by the jerk magnitude and its direction.
///
/// Under `UDDU` the segment signs are `+, 0, -, 0, -, 0, +`; under `UDUD`
/// they are `+, 0, -, 0, +, 0, -`. Even-numbered interior segments are the
/// zero-jerk plateaus of both patterns.
pub open spec fn spec_jerk_sign(control_signs: ControlSigns, index: int) -> int {
    if index == 0 {
        1
    } else if index == 2 {
        -1
    } else if index == 4 {
        if control_signs == ControlSigns::UDDU { -1 } else { 1 }
    } else if index == 6 {
        if control_signs == ControlSigns::UDDU { 1 } else { -1 }
    } else {
        0
    }
}

/// The jerk sign of segment `index` under the pattern `control_signs`.
pub fn jerk_sign(control_signs: ControlSigns, index: usize) -> (r: i64)
    requires
        index < 7,
    ensures
        r == spec_jerk_sign(control_signs, index as int),
{
    match index {
        0 => 1,
        2 => -1,
        4 => if control_signs == ControlSigns::UDDU { -1 } else { 1 },
        6 => if control_signs == ControlSigns::UDDU { 1 } else { -1 },
        _ => 0,
    }
}

/// Whether the `limits` tag requires the first acceleration plateau
/// (segment 1) to have positive duration.
pub open spec fn spec_requires_acc0_plateau(limits: ReachedLimits) -> bool {
    limits == ReachedLimits::Acc0Acc1Vel || limits == ReachedLimits::Acc0Vel
        || limits == ReachedLimits::Acc0Acc1 || limits == ReachedLimits::Acc0
}

/// Whether the `limits` tag requires the velocity plateau (segment 3) to have
/// positive duration.
pub open spec fn spec_requires_vel_plateau(limits: ReachedLimits) -> bool {
    limits == ReachedLimits::Acc0Acc1Vel || limits == ReachedLimits::Vel
        || limits == ReachedLimits::Acc0Vel || limits == ReachedLimits::Acc1Vel
}

/// Whether the `limits` tag requires the second acceleration plateau
/// (segment 5) to have positive duration.
pub open spec fn spec_requires_acc1_plateau(limits: ReachedLimits) -> bool {
    limits == ReachedLimits::Acc0Acc1Vel || limits == ReachedLimits::Acc1Vel
        || limits == ReachedLimits::Acc0Acc1 || limits == ReachedLimits::Acc1
}

/// Whether segment `index` is required by the `limits` tag to be non-empty:
/// the plateau segments 1, 3 and 5 are pinned exactly when the corresponding
/// limit is named as reached.
pub fn segment_required_nonzero(limits: ReachedLimits, index: usize) -> (r: bool)
    requires
        index < 7,
    ensures
        index == 1 ==> r == spec_requires_acc0_plateau(limits),
        index == 3 ==> r == spec_requires_vel_plateau(limits),
        index == 5 ==> r == spec_requires_acc1_plateau(limits),
        (index != 1 && index != 3 && index != 5) ==> r == false,
{
    match index {
        1 => matches!(
            limits,
            ReachedLimits::Acc0Acc1Vel
                | ReachedLimits::Acc0Vel
                | ReachedLimits::Acc0Acc1
                | ReachedLimits::Acc0
        ),
        3 => matches!(
            limits,
            ReachedLimits::Acc0Acc1Vel
                | ReachedLimits::Vel
                | ReachedLimits::Acc0Vel
                | ReachedLimits::Acc1Vel
        ),
        5 => matches!(
            limits,
            ReachedLimits::Acc0Acc1Vel
                | ReachedLimits::Acc1Vel
                | ReachedLimits::Acc0Acc1
                | ReachedLimits::Acc1
        ),
        _ => false,
    }
}

} // verus!
