//! A named environment: its configuration, its attached agents, and the
//! shared cells through which its worker thread is controlled.
//!
//! The lifecycle core never spawns an operating-system thread itself: when a
//! start is granted, the manager hands the embedding runtime a
//! [`WorkerLink`], and the runtime runs [`worker_loop`] with it on a fresh
//! thread. Everything the worker does — polling the state cell, blocking on
//! the pause signal, exiting on stop — is this crate's verified code; the
//! runtime contributes only the thread it runs on.

use vstd::prelude::*;

use std::sync::atomic::AtomicU64;
use std::sync::atomic::AtomicU8;
use std::sync::atomic::Ordering;
use std::sync::Arc;

use crate::agent::Agent;
use crate::agent::Attached;
use crate::agent::NotAttached;
use crate::signal::PauseSignal;
use crate::state::state_byte;
use crate::state::LifecycleState;
use crate::state::STATE_BYTE_INITIALIZATION;
use crate::state::STATE_BYTE_PAUSED;
use crate::state::STATE_BYTE_STOPPED;

verus! {

/// A registered environment. The `phase` field is the manager's record of
/// the lifecycle state; `cell` mirrors it as a byte for the worker thread,
/// which polls the cell and obeys it. `signal` is shared with the worker so
/// that a paused worker blocks instead of spinning. `ticks` counts the units
/// of work the worker has performed; it only ever advances while the worker
/// runs, so it makes the worker's progress observable from outside.
pub struct Environment {
    /// The unique label the environment is registered under.
    pub label: String,
    /// The manager's record of the environment's lifecycle state.
    pub phase: LifecycleState,
    /// The state cell shared with the worker thread, holding the byte
    /// encoding of the phase.
    pub cell: Arc<AtomicU8>,
    /// The pause signal shared with the worker thread.
    pub signal: PauseSignal,
    /// How many work steps the worker has performed, shared with the worker.
    pub ticks: Arc<AtomicU64>,
    /// The configured block rate, stored as the bit pattern of the rate the
    /// caller chose; the lifecycle core stores it and never interprets it.
    pub block_rate_bits: u64,
    /// The seed the environment was configured with.
    pub seed: u64,
    /// The agents attached while the environment was in initialization.
    pub agents: Vec<Agent<Attached>>,
}

/// The shared handles a worker thread needs: the state cell it obeys, the
/// signal it blocks on while paused, and the progress counter it advances.
pub struct WorkerLink {
    /// The shared state cell, polled by the worker.
    pub cell: Arc<AtomicU8>,
    /// The shared pause signal, waited on by the worker.
    pub signal: PauseSignal,
    /// The shared progress counter, advanced by the worker.
    pub ticks: Arc<AtomicU64>,
}

/// The worker thread's body: poll the shared cell and obey it. A stopped
/// byte exits; a paused byte blocks on the signal until resumed; otherwise
/// one unit of work is performed and counted. Each pass spends one step of a
/// finite polling budget, so the loop provably terminates; the budget is far
/// beyond what any worker can spend in practice.
pub fn worker_loop(link: WorkerLink) {
    let mut spent: u64 = 0;
    while spent < u64::MAX
        decreases u64::MAX - spent,
    {
        spent = spent + 1;
        let b = link.cell.load(Ordering::Relaxed);
        if b == STATE_BYTE_STOPPED {
            return ;
        } else if b == STATE_BYTE_PAUSED {
            link.signal.wait_while_paused(&*link.cell);
        } else {
            let _ = link.ticks.fetch_add(1, Ordering::Relaxed);
        }
    }
}

impl Environment {
    /// Creates an environment in the `Initialization` phase with the given
    /// label and configuration, no agents attached and no work done.
    pub fn new(label: String, block_rate_bits: u64, seed: u64) -> (env: Environment)
        ensures
            env.label@ == label@,
            env.phase == LifecycleState::Initialization,
            env.block_rate_bits == block_rate_bits,
            env.seed == seed,
            env.agents@.len() == 0,
    {
        Environment {
            label,
            phase: LifecycleState::Initialization,
            cell: Arc::new(AtomicU8::new(STATE_BYTE_INITIALIZATION)),
            signal: PauseSignal::new(),
            ticks: Arc::new(AtomicU64::new(0)),
            block_rate_bits,
            seed,
            agents: Vec::new(),
        }
    }

    /// Attaches an agent. The unattached value is consumed; the attached
    /// agent joins the environment's pending set under the same name.
    pub fn add_agent(&mut self, agent: Agent<NotAttached>)
        ensures
            final(self).agents@.len() == old(self).agents@.len() + 1,
            final(self).agents@.last().name@ == agent.name@,
            forall|i: int|
                0 <= i < old(self).agents@.len() ==> final(self).agents@[i] == old(
                    self,
                ).agents@[i],
            final(self).label == old(self).label,
            final(self).phase == old(self).phase,
            final(self).cell == old(self).cell,
            final(self).signal == old(self).signal,
            final(self).ticks == old(self).ticks,
            final(self).block_rate_bits == old(self).block_rate_bits,
            final(self).seed == old(self).seed,
    {
        self.agents.push(agent.attach());
    }

    /// Records a new lifecycle state and mirrors it into the cell the
    /// worker thread polls. Nothing else about the environment changes.
    pub fn set_phase(&mut self, s: LifecycleState)
        ensures
            *final(self) == (Environment { phase: s, ..*old(self) }),
    {
        self.phase = s;
        self.cell.store(state_byte(s), Ordering::Relaxed);
    }

    /// The shared handles a worker thread for this environment needs.
    pub fn worker_link(&self) -> (link: WorkerLink)
        ensures
            link.cell == self.cell,
            link.signal == self.signal,
            link.ticks == self.ticks,
    {
        WorkerLink {
            cell: self.cell.clone(),
            signal: self.signal.clone(),
            ticks: self.ticks.clone(),
        }
    }

    /// One momentary read of the worker's progress counter. The counter is
    /// written by the worker thread, so two reads may differ while the
    /// worker runs; once the worker has exited it can never change again.
    pub fn ticks_now(&self) -> u64 {
        self.ticks.load(Ordering::Relaxed)
    }
}

} // verus!
