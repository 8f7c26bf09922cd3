//! Global and per-axis settings of the trajectory generator.

use vstd::prelude::*;

verus! {

/// Which kinematic level is controlled directly.
#[derive(Debug, Clone, Copy, PartialEq, Eq, Structural)]
pub enum ControlInterface {
    /// Full kinematic state control: position, velocity and acceleration.
    Position,
    /// Direct velocity control, as for visual servoing or stop trajectories.
    Velocity,
    /// Direct acceleration control.
    Acceleration,
}

impl Default for ControlInterface {
    /// The default interface controls the position.
    fn default() -> (r: Self)
        ensures
            r == ControlInterface::Position,
    {
        ControlInterface::Position
    }
}

/// How multiple degrees of freedom are synchronized.
#[derive(Debug, Clone, Copy, PartialEq, Eq, Structural)]
pub enum Synchronization {
    /// All degrees of freedom reach their target at the same time.
    Time,
    /// Synchronize only if required by other constraints.
    TimeIfNecessary,
    /// All degrees of freedom follow the same phase profile, which results in
    /// straight-line motion through configuration space.
    Phase,
    /// Each degree of freedom follows its own time-optimal profile.
    No,
}

impl Default for Synchronization {
    /// The default synchronization makes every axis arrive at the same time.
    fn default() -> (r: Self)
        ensures
            r == Synchronization::Time,
    {
        Synchronization::Time
    }
}

/// Whether the trajectory duration is restricted to multiples of the control
/// cycle.
#[derive(Debug, Clone, Copy, PartialEq, Eq, Structural)]
pub enum DurationDiscretization {
    /// Any trajectory duration is allowed.
    Continuous,
    /// The duration must be an integer multiple of the control cycle.
    Discrete,
}

impl Default for DurationDiscretization {
    /// By default any duration is allowed.
    fn default() -> (r: Self)
        ensures
            r == DurationDiscretization::Continuous,
    {
        DurationDiscretization::Continuous
    }
}

} // verus!
