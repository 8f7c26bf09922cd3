//! Jerk-limited, multi-axis trajectory generation: the decision core.
//!
//! An online trajectory generator plans, for every control tick, a
//! time-optimal seven-segment jerk-limited profile per axis and forces all
//! axes onto a common duration. This library holds the parts of that system
//! that can be stated and proved exactly: the profile tags and jerk-sign
//! templates, the feasible-duration structure per axis, the selection of the
//! common synchronized duration, the reference choice of phase
//! synchronization, input validation, the driver's per-tick decisions, and
//! the order-preserving encoding of IEEE-754 double-precision values as
//! integer keys on which all of these compare.

use vstd::prelude::*;

pub mod block;
pub mod brake;
pub mod error;
pub mod float_key;
pub mod input_parameter;
pub mod phase;
pub mod profile;
pub mod result;
pub mod ruckig;
pub mod sync;
pub mod trajectory;
pub mod util;
pub mod validation;

verus! {

pub use crate::block::Block;
pub use crate::block::Interval;
pub use crate::block::spec_calculate_block;
pub use crate::block::BlockStructure;
pub use crate::block::ProfileSource;
pub use crate::brake::BrakeInput;
pub use crate::brake::BrakeMode;
pub use crate::brake::position_brake_mode;
pub use crate::brake::second_order_position_brake_mode;
pub use crate::brake::velocity_brake_mode;
pub use crate::error::IgnoreErrorHandler;
pub use crate::error::RuckigError;
pub use crate::error::RuckigErrorHandler;
pub use crate::error::ThrowErrorHandler;
pub use crate::float_key::EPSILON_BITS;
pub use crate::float_key::ZERO_BITS;
pub use crate::float_key::ZERO_KEY;
pub use crate::float_key::abs_bits;
pub use crate::float_key::bits_le;
pub use crate::float_key::bits_lt;
pub use crate::float_key::bits_num_eq;
pub use crate::float_key::is_infinite_bits;
pub use crate::float_key::is_nan_bits;
pub use crate::float_key::is_negative_bits;
pub use crate::float_key::is_zero_bits;
pub use crate::float_key::neg_bits;
pub use crate::float_key::normalize_zero_bits;
pub use crate::float_key::total_order_key;
pub use crate::input_parameter::ControlInterface;
pub use crate::input_parameter::DurationDiscretization;
pub use crate::input_parameter::Synchronization;
pub use crate::phase::PhaseCoordinates;
pub use crate::phase::ScaleSource;
pub use crate::phase::choose_scale;
pub use crate::phase::keeps_own_profile;
pub use crate::profile::ControlSigns;
pub use crate::profile::Direction;
pub use crate::profile::ReachedLimits;
pub use crate::profile::jerk_sign;
pub use crate::profile::segment_required_nonzero;
pub use crate::result::RuckigResult;
pub use crate::ruckig::MAX_DURATION_BITS;
pub use crate::ruckig::duration_exceeds_guard;
pub use crate::ruckig::section_changed;
pub use crate::ruckig::update_result;
pub use crate::sync::SyncChoice;
pub use crate::sync::SyncSelection;
pub use crate::sync::select_sync_time;
pub use crate::sync::sync_candidates;
pub use crate::sync::synchronize;
pub use crate::sync::time_admissible;
pub use crate::trajectory::section_index;
pub use crate::trajectory::segment_index;
pub use crate::util::DataArrayOrVec;
pub use crate::util::pow2;
pub use crate::validation::DofBits;
pub use crate::validation::ValidationIssue;
pub use crate::validation::validate;
pub use crate::validation::validate_dof;
pub use crate::validation::validate_input;

} // verus!
