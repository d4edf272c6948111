//! The lifecycle state of an environment and the transition table that the
//! manager enforces.

use vstd::prelude::*;

use crate::errors::ManagerError;

verus! {

/// The phase an environment is in. `Stopped` is terminal: no operation leads
/// out of it.
#[derive(Clone, Copy, Debug, PartialEq, Eq, Structural)]
pub enum LifecycleState {
    /// Created and registered, worker thread not yet spawned.
    Initialization,
    /// Worker thread active and unblocked.
    Running,
    /// Worker thread active but blocked on the pause signal.
    Paused,
    /// Terminal: the worker thread has exited or is exiting.
    Stopped,
}

/// Whether an environment in this state has a live worker thread: true in
/// `Running` and `Paused`, false before the first start and after a stop.
pub open spec fn is_live(s: LifecycleState) -> bool {
    s == LifecycleState::Running || s == LifecycleState::Paused
}

/// Byte written to the shared atomic cell while an environment is in
/// `Initialization`.
pub const STATE_BYTE_INITIALIZATION: u8 = 0;

/// Byte written to the shared atomic cell while an environment is `Running`.
pub const STATE_BYTE_RUNNING: u8 = 1;

/// Byte written to the shared atomic cell while an environment is `Paused`.
pub const STATE_BYTE_PAUSED: u8 = 2;

/// Byte written to the shared atomic cell once an environment is `Stopped`.
pub const STATE_BYTE_STOPPED: u8 = 3;

/// The byte that stands for a lifecycle state in the atomic cell the manager
/// shares with the worker thread.
pub open spec fn spec_state_byte(s: LifecycleState) -> u8 {
    match s {
        LifecycleState::Initialization => STATE_BYTE_INITIALIZATION,
        LifecycleState::Running => STATE_BYTE_RUNNING,
        LifecycleState::Paused => STATE_BYTE_PAUSED,
        LifecycleState::Stopped => STATE_BYTE_STOPPED,
    }
}

/// Encodes a lifecycle state as the byte stored in the shared atomic cell.
pub fn state_byte(s: LifecycleState) -> (b: u8)
    ensures
        b == spec_state_byte(s),
{
    match s {
        LifecycleState::Initialization => STATE_BYTE_INITIALIZATION,
        LifecycleState::Running => STATE_BYTE_RUNNING,
        LifecycleState::Paused => STATE_BYTE_PAUSED,
        LifecycleState::Stopped => STATE_BYTE_STOPPED,
    }
}

/// The byte encoding is injective: the shared cell distinguishes every
/// pair of lifecycle states, so the worker can tell a pause from a stop by
/// the byte alone.
pub proof fn lemma_state_bytes_distinct()
    ensures
        forall|a: LifecycleState, b: LifecycleState|
            spec_state_byte(a) == spec_state_byte(b) ==> a == b,
{
}

/// The transition taken by a start (or resume) request, exactly as the
/// manager performs it: starting is legal from `Initialization` (spawn) and
/// from `Paused` (resume); it is rejected from `Running` and from `Stopped`.
pub open spec fn start_transition(s: LifecycleState) -> Result<LifecycleState, ManagerError> {
    match s {
        LifecycleState::Initialization => Ok(LifecycleState::Running),
        LifecycleState::Paused => Ok(LifecycleState::Running),
        LifecycleState::Running => Err(ManagerError::AlreadyRunning),
        LifecycleState::Stopped => Err(ManagerError::CannotRestartStopped),
    }
}

/// The transition taken by a pause request: legal only from `Running`.
pub open spec fn pause_transition(s: LifecycleState) -> Result<LifecycleState, ManagerError> {
    match s {
        LifecycleState::Initialization => Err(ManagerError::NotRunning),
        LifecycleState::Running => Ok(LifecycleState::Paused),
        LifecycleState::Paused => Err(ManagerError::AlreadyPaused),
        LifecycleState::Stopped => Err(ManagerError::CannotPauseStopped),
    }
}

/// The transition taken by a stop request: legal from `Running` and from
/// `Paused`, both ending in the terminal `Stopped` phase.
pub open spec fn stop_transition(s: LifecycleState) -> Result<LifecycleState, ManagerError> {
    match s {
        LifecycleState::Initialization => Err(ManagerError::NotRunning),
        LifecycleState::Running => Ok(LifecycleState::Stopped),
        LifecycleState::Paused => Ok(LifecycleState::Stopped),
        LifecycleState::Stopped => Err(ManagerError::AlreadyStopped),
    }
}

/// The legal edges of the per-environment state machine: start from
/// `Initialization`, pause from `Running`, resume from `Paused`, stop from
/// `Running` or `Paused`. Nothing leaves `Stopped`.
pub open spec fn legal_edge(from: LifecycleState, to: LifecycleState) -> bool {
    ||| (from == LifecycleState::Initialization && to == LifecycleState::Running)
    ||| (from == LifecycleState::Running && to == LifecycleState::Paused)
    ||| (from == LifecycleState::Paused && to == LifecycleState::Running)
    ||| (from == LifecycleState::Running && to == LifecycleState::Stopped)
    ||| (from == LifecycleState::Paused && to == LifecycleState::Stopped)
}

/// The three request kinds succeed exactly on the legal edges: a request
/// moves `from` to `to` for some legal edge, and on every other phase it is
/// rejected and names the violated edge. In particular `Stopped` is terminal:
/// no request succeeds from it.
pub proof fn lemma_transitions_exactly_legal_edges()
    ensures
        forall|s: LifecycleState|
            (#[trigger] start_transition(s)) matches Ok(t) ==> legal_edge(s, t),
        forall|s: LifecycleState|
            (#[trigger] pause_transition(s)) matches Ok(t) ==> legal_edge(s, t),
        forall|s: LifecycleState|
            (#[trigger] stop_transition(s)) matches Ok(t) ==> legal_edge(s, t),
        forall|s: LifecycleState, t: LifecycleState|
            #[trigger] legal_edge(s, t) ==> (start_transition(s) == Ok::<
                LifecycleState,
                ManagerError,
            >(t) || pause_transition(s) == Ok::<LifecycleState, ManagerError>(t)
                || stop_transition(s) == Ok::<LifecycleState, ManagerError>(t)),
        forall|t: LifecycleState| !(#[trigger] legal_edge(LifecycleState::Stopped, t)),
{
}

/// Pausing and resuming are mutually inverse on the live states: a pause
/// request moves `Running` to `Paused`, and a resume (a start request on a
/// paused environment) moves `Paused` back to `Running` — so pausing and
/// resuming any number of times always returns to `Running`, and never
/// reaches a state from which a resume is refused.
pub proof fn lemma_pause_resume_round_trip()
    ensures
        pause_transition(LifecycleState::Running) == Ok::<LifecycleState, ManagerError>(
            LifecycleState::Paused,
        ),
        start_transition(LifecycleState::Paused) == Ok::<LifecycleState, ManagerError>(
            LifecycleState::Running,
        ),
{
}

} // verus!
