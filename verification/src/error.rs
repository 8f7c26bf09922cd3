//! Error types and the error-sink abstraction.
//!
//! Validation and calculation failures are reported through an error handler
//! chosen by the caller: one that propagates every message as an error, and
//! one that acknowledges every message and lets the caller continue.

use vstd::prelude::*;

verus! {

/// An error raised while generating a trajectory, carrying the diagnostic
/// message that describes the offending input or calculation step.
#[derive(Debug, Clone)]
pub enum RuckigError {
    /// The input parameters were rejected before any calculation.
    ValidationError(String),
    /// A problem was encountered during the trajectory calculation itself.
    CalculatorError(String),
}

impl RuckigError {
    /// The diagnostic message carried by this error.
    pub fn message(&self) -> (r: &String)
        ensures
            *self matches RuckigError::ValidationError(m) ==> r@ == m@,
            *self matches RuckigError::CalculatorError(m) ==> r@ == m@,
    {
        match self {
            RuckigError::ValidationError(m) => m,
            RuckigError::CalculatorError(m) => m,
        }
    }

    /// Whether this error was raised during input validation.
    pub fn is_validation_error(&self) -> (r: bool)
        ensures
            r == (*self matches RuckigError::ValidationError(_)),
    {
        match self {
            RuckigError::ValidationError(_) => true,
            RuckigError::CalculatorError(_) => false,
        }
    }
}

/// Decides what becomes of a diagnostic message: an error for the caller, or
/// an acknowledgement that lets the calculation carry on.
pub trait RuckigErrorHandler {
    /// Handle a message raised during input validation.
    fn handle_validation_error(message: &str) -> (r: Result<(), RuckigError>);

    /// Handle a message raised during trajectory calculation.
    fn handle_calculator_error(message: &str) -> (r: Result<(), RuckigError>);
}

/// Error handler that propagates every message as an error.
#[derive(Debug, Default)]
pub struct ThrowErrorHandler;

impl RuckigErrorHandler for ThrowErrorHandler {
    fn handle_validation_error(message: &str) -> (r: Result<(), RuckigError>)
        ensures
            r matches Err(e) && e matches RuckigError::ValidationError(m) && m@ == message@,
    {
        Err(RuckigError::ValidationError(message.to_string()))
    }

    fn handle_calculator_error(message: &str) -> (r: Result<(), RuckigError>)
        ensures
            r matches Err(e) && e matches RuckigError::CalculatorError(m) && m@ == message@,
    {
        Err(RuckigError::CalculatorError(message.to_string()))
    }
}

/// Error handler that acknowledges every message and continues.
#[derive(Debug, Default)]
pub struct IgnoreErrorHandler;

impl RuckigErrorHandler for IgnoreErrorHandler {
    fn handle_validation_error(message: &str) -> (r: Result<(), RuckigError>)
        ensures
            r is Ok,
    {
        Ok(())
    }

    fn handle_calculator_error(message: &str) -> (r: Result<(), RuckigError>)
        ensures
            r is Ok,
    {
        Ok(())
    }
}

} // verus!
