//! The failures a manager operation can report. All are local, synchronous
//! and recoverable: a rejected call leaves every environment unchanged.

use vstd::prelude::*;

verus! {

/// Why a manager operation was rejected. One variant per violated rule:
/// `AlreadyExists` for a duplicate registration, `NotFound` for an unknown
/// label, and one variant per illegal edge of the lifecycle state machine.
#[derive(Clone, Copy, Debug, PartialEq, Eq, Structural)]
pub enum ManagerError {
    /// Registering a label that is already registered.
    AlreadyExists,
    /// Operating on a label that was never registered.
    NotFound,
    /// Starting an environment that is already running.
    AlreadyRunning,
    /// Pausing an environment that is already paused.
    AlreadyPaused,
    /// Stopping an environment that is already stopped.
    AlreadyStopped,
    /// Pausing or stopping an environment that was never started.
    NotRunning,
    /// Starting an environment that has been stopped (terminal).
    CannotRestartStopped,
    /// Pausing an environment that has been stopped (terminal).
    CannotPauseStopped,
}

impl ManagerError {
    /// A human-readable description of the failure.
    pub fn describe(&self) -> &'static str {
        match self {
            ManagerError::AlreadyExists => "Environment already exists.",
            ManagerError::NotFound => "Environment does not exist.",
            ManagerError::AlreadyRunning => "Environment is already running.",
            ManagerError::AlreadyPaused => "Environment is already paused.",
            ManagerError::AlreadyStopped => "Environment is already stopped.",
            ManagerError::NotRunning => "Environment is not running.",
            ManagerError::CannotRestartStopped => "Environment is stopped and cannot be restarted.",
            ManagerError::CannotPauseStopped => "Environment is stopped and cannot be paused.",
        }
    }
}

} // verus!
