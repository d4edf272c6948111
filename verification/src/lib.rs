//! Lifecycle management for named, concurrently executing environments.
//!
//! An environment is a long-running unit of work identified by a label and
//! driven by its own worker thread. The [`manager::Manager`] is the registry
//! of environments and the single gate for the legal lifecycle transitions:
//! create, start, pause, resume and stop. Pausing and resuming use a shared
//! atomic state cell together with a mutex/condition-variable pair, so that a
//! paused worker blocks without burning cycles and a resume never loses the
//! wakeup.

pub mod agent;
pub mod environment;
pub mod errors;
pub mod manager;
pub mod signal;
pub mod state;
