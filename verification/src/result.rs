//! Result states of trajectory calculation and update.

use vstd::prelude::*;

verus! {

/// Outcome of a calculation or update step: either a success state
/// (`Working`, `Finished`) or one of the error states.
#[derive(Debug, Clone, Copy, PartialEq, Eq, Structural)]
pub enum RuckigResult {
    /// The trajectory is being calculated normally.
    Working,
    /// The trajectory has reached its final position.
    Finished,
    /// Unclassified error in calculation.
    Error,
    /// Error in the input parameters.
    ErrorInvalidInput,
    /// The trajectory duration exceeds its numerical limits.
    ErrorTrajectoryDuration,
    /// The trajectory exceeds the given positional limits.
    ErrorPositionalLimits,
    /// The trajectory is not valid due to a conflict with zero limits.
    ErrorZeroLimits,
    /// Error during the extremal time calculation (first step).
    ErrorExecutionTimeCalculation,
    /// Error during the synchronization calculation (second step).
    ErrorSynchronizationCalculation,
}

impl RuckigResult {
    /// Whether this result is a success state.
    pub open spec fn spec_is_success(self) -> bool {
        self == RuckigResult::Working || self == RuckigResult::Finished
    }

    /// A result is an error exactly when it is neither `Working` nor `Finished`.
    pub fn is_error(&self) -> (r: bool)
        ensures
            r == !self.spec_is_success(),
    {
        !(*self == RuckigResult::Working || *self == RuckigResult::Finished)
    }
}

} // verus!
