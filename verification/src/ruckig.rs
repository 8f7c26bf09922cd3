//! Decisions of the per-tick driver.
//!
//! The driver advances a sampling time every control cycle, samples the
//! current trajectory, and reports whether the trajectory is still being
//! followed. The decisions it takes — finished or working, whether the
//! section advanced, whether the duration guard trips — are comparisons on
//! IEEE-754 bit patterns (see [`crate::float_key`]) and are settled here.

use vstd::prelude::*;

use crate::float_key::bits_lt;
use crate::float_key::spec_lt;
use crate::result::RuckigResult;

verus! {

/// Bit pattern of the duration guard: a trajectory longer than 7600 seconds
/// is rejected while the guard is enabled.
pub const MAX_DURATION_BITS: u64 = 0x40bd_b000_0000_0000;

/// The result of one completed update step: the trajectory is finished once
/// the sampling time has passed its duration, and being worked on before
/// that.
pub fn update_result(time: u64, duration: u64) -> (r: RuckigResult)
    ensures
        r == RuckigResult::Finished <==> spec_lt(duration, time),
        r == RuckigResult::Finished || r == RuckigResult::Working,
{
    if bits_lt(duration, time) {
        RuckigResult::Finished
    } else {
        RuckigResult::Working
    }
}

/// Whether the sampled section is a forward change against the previous one:
/// only an increase counts as a section change.
pub fn section_changed(old_section: usize, new_section: usize) -> (r: bool)
    ensures
        r == (new_section > old_section),
{
    new_section > old_section
}

/// Whether the duration guard rejects the duration: it does exactly when the
/// duration lies beyond the guard threshold.
pub fn duration_exceeds_guard(duration: u64) -> (r: bool)
    ensures
        r == spec_lt(MAX_DURATION_BITS, duration),
{
    bits_lt(MAX_DURATION_BITS, duration)
}

} // verus!
