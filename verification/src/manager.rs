//! The manager: the registry of environments and the single gate for
//! lifecycle transitions.
//!
//! The manager is the single source of truth for which environments exist
//! and what phase each is in. Every transition request is checked against
//! the lifecycle state machine: a legal request mutates exactly the one
//! environment it names, an illegal one is rejected with the named error
//! and mutates nothing.
//!
//! The manager records which environments have a live worker thread in
//! [`Manager::worker_labels`]; the embedding runtime keeps the join handle
//! for each of those labels. A granted start from `Initialization` returns
//! [`StartEffect::Spawn`]: the runtime must run [`worker_loop`] with the
//! returned link on a fresh thread and keep its handle. A granted stop
//! removes the label from `worker_labels`; the runtime must then join the
//! worker's handle — the shared cell already holds the stopped byte, so the
//! worker is on its way out, and the join completing is what makes the
//! shutdown clean.

use vstd::prelude::*;

use crate::agent::Agent;
use crate::agent::NotAttached;
use crate::environment::Environment;
use crate::environment::WorkerLink;
use crate::errors::ManagerError;
use crate::state::is_live;
use crate::state::pause_transition;
use crate::state::start_transition;
use crate::state::stop_transition;
use crate::state::LifecycleState;

verus! {

/// What the embedding runtime owes after a granted start request.
pub enum StartEffect {
    /// The environment left `Initialization`: run [`worker_loop`] with this
    /// link on a fresh thread and keep the thread's join handle under the
    /// environment's label.
    ///
    /// [`worker_loop`]: crate::environment::worker_loop
    Spawn(WorkerLink),
    /// The environment was paused and has been resumed: the waiting worker
    /// has already been notified, nothing is owed.
    Resumed,
}

/// The registry of environments, keyed by label, and the record of which of
/// them currently have a live worker thread.
pub struct Manager {
    /// Every registered environment, each under a distinct label.
    pub environments: Vec<Environment>,
    /// The labels of the environments whose worker thread is live (running
    /// or paused). The embedding runtime keeps the join handle for each.
    pub worker_labels: Vec<String>,
}

impl Manager {
    /// Whether an environment is registered under this label.
    pub open spec fn has_env(self, label: Seq<char>) -> bool {
        exists|i: int|
            0 <= i < self.environments@.len() && self.environments@[i].label@ == label
    }

    /// The registry index of the environment with this label.
    pub open spec fn env_index(self, label: Seq<char>) -> int {
        choose|i: int|
            0 <= i < self.environments@.len() && self.environments@[i].label@ == label
    }

    /// The environment registered under this label.
    pub open spec fn env_of(self, label: Seq<char>) -> Environment {
        self.environments@[self.env_index(label)]
    }

    /// The recorded lifecycle state of the environment with this label.
    pub open spec fn phase_of(self, label: Seq<char>) -> LifecycleState {
        self.env_of(label).phase
    }

    /// Whether a live worker is recorded under this label.
    pub open spec fn has_worker(self, label: Seq<char>) -> bool {
        exists|i: int|
            0 <= i < self.worker_labels@.len() && self.worker_labels@[i]@ == label
    }

    /// The position of this label in the live-worker record.
    pub open spec fn worker_index(self, label: Seq<char>) -> int {
        choose|i: int|
            0 <= i < self.worker_labels@.len() && self.worker_labels@[i]@ == label
    }

    /// No two registered environments share a label.
    pub open spec fn envs_unique(self) -> bool {
        forall|i: int, j: int|
            0 <= i < j < self.environments@.len() ==> self.environments@[i].label@
                != self.environments@[j].label@
    }

    /// No label is recorded twice in the live-worker record.
    pub open spec fn workers_unique(self) -> bool {
        forall|i: int, j: int|
            0 <= i < j < self.worker_labels@.len() ==> self.worker_labels@[i]@
                != self.worker_labels@[j]@
    }

    /// Entry `i` of the live-worker record names a registered environment
    /// that is running or paused.
    pub open spec fn worker_entry_live(self, i: int) -> bool {
        exists|j: int|
            0 <= j < self.environments@.len() && self.environments@[j].label@
                == self.worker_labels@[i]@ && is_live(self.environments@[j].phase)
    }

    /// If environment `j` is running or paused, its label is recorded in the
    /// live-worker record.
    pub open spec fn env_live_recorded(self, j: int) -> bool {
        is_live(self.environments@[j].phase) ==> self.has_worker(self.environments@[j].label@)
    }

    /// The registry invariant: labels are unique on both sides, and a label
    /// is recorded in the live-worker record exactly when its environment is
    /// running or paused. Every operation preserves this, so the record and
    /// the registry can never desynchronize.
    pub open spec fn wf(self) -> bool {
        &&& self.envs_unique()
        &&& self.workers_unique()
        &&& forall|i: int| 0 <= i < self.worker_labels@.len() ==> #[trigger] self.worker_entry_live(i)
        &&& forall|j: int| 0 <= j < self.environments@.len() ==> #[trigger] self.env_live_recorded(j)
    }

    /// With unique labels, the registry index of a label is the index of any
    /// environment carrying it.
    pub proof fn lemma_env_index_is(self, label: Seq<char>, i: int)
        requires
            self.envs_unique(),
            0 <= i < self.environments@.len(),
            self.environments@[i].label@ == label,
        ensures
            self.has_env(label),
            self.env_index(label) == i,
            self.env_of(label) == self.environments@[i],
    {
        assert(self.has_env(label));
        let k = self.env_index(label);
        if k < i {
            assert(self.environments@[k].label@ != self.environments@[i].label@);
        } else if k > i {
            assert(self.environments@[i].label@ != self.environments@[k].label@);
        }
    }

    /// With unique labels, the live-worker index of a label is the index of
    /// any entry carrying it.
    pub proof fn lemma_worker_index_is(self, label: Seq<char>, i: int)
        requires
            self.workers_unique(),
            0 <= i < self.worker_labels@.len(),
            self.worker_labels@[i]@ == label,
        ensures
            self.has_worker(label),
            self.worker_index(label) == i,
    {
        assert(self.has_worker(label));
        let k = self.worker_index(label);
        if k < i {
            assert(self.worker_labels@[k]@ != self.worker_labels@[i]@);
        } else if k > i {
            assert(self.worker_labels@[i]@ != self.worker_labels@[k]@);
        }
    }

    /// The registry invariant survives any change that keeps every label,
    /// every phase's liveness, and the live-worker record as they were.
    proof fn lemma_wf_same_liveness(oldm: Manager, newm: Manager)
        requires
            oldm.wf(),
            newm.worker_labels@ == oldm.worker_labels@,
            newm.environments@.len() == oldm.environments@.len(),
            forall|i: int|
                0 <= i < oldm.environments@.len() ==> (#[trigger] newm.environments@[i]).label@
                    == oldm.environments@[i].label@ && is_live(newm.environments@[i].phase)
                    == is_live(oldm.environments@[i].phase),
        ensures
            newm.wf(),
    {
        assert forall|i: int, j: int|
            0 <= i < j < newm.environments@.len() implies newm.environments@[i].label@
            != newm.environments@[j].label@ by {
            assert(oldm.environments@[i].label@ != oldm.environments@[j].label@);
        }
        assert forall|i: int|
            0 <= i < newm.worker_labels@.len() implies #[trigger] newm.worker_entry_live(i) by {
            assert(oldm.worker_entry_live(i));
            let j = choose|j: int|
                0 <= j < oldm.environments@.len() && oldm.environments@[j].label@
                    == oldm.worker_labels@[i]@ && is_live(oldm.environments@[j].phase);
            assert(0 <= j < newm.environments@.len() && newm.environments@[j].label@
                == newm.worker_labels@[i]@ && is_live(newm.environments@[j].phase));
        }
        assert forall|j: int|
            0 <= j < newm.environments@.len() implies #[trigger] newm.env_live_recorded(j) by {
            if is_live(newm.environments@[j].phase) {
                assert(oldm.env_live_recorded(j));
                let wi = choose|i: int|
                    0 <= i < oldm.worker_labels@.len() && oldm.worker_labels@[i]@
                        == oldm.environments@[j].label@;
                assert(0 <= wi < newm.worker_labels@.len() && newm.worker_labels@[wi]@
                    == newm.environments@[j].label@);
                assert(newm.has_worker(newm.environments@[j].label@));
            }
        }
    }

    /// The registry invariant survives registering one fresh label whose
    /// environment is not live, with the live-worker record untouched.
    proof fn lemma_wf_push_env(oldm: Manager, newm: Manager, label: Seq<char>)
        requires
            oldm.wf(),
            !oldm.has_env(label),
            newm.worker_labels@ == oldm.worker_labels@,
            newm.environments@.len() == oldm.environments@.len() + 1,
            forall|i: int|
                0 <= i < oldm.environments@.len() ==> #[trigger] newm.environments@[i]
                    == oldm.environments@[i],
            newm.environments@.last().label@ == label,
            !is_live(newm.environments@.last().phase),
        ensures
            newm.wf(),
    {
        let n = oldm.environments@.len() as int;
        assert forall|i: int, j: int|
            0 <= i < j < newm.environments@.len() implies newm.environments@[i].label@
            != newm.environments@[j].label@ by {
            assert(newm.environments@[i] == oldm.environments@[i]);
            if j < n {
                assert(newm.environments@[j] == oldm.environments@[j]);
                assert(oldm.environments@[i].label@ != oldm.environments@[j].label@);
            } else {
                if oldm.environments@[i].label@ == label {
                    assert(oldm.has_env(label));
                }
            }
        }
        assert forall|i: int|
            0 <= i < newm.worker_labels@.len() implies #[trigger] newm.worker_entry_live(i) by {
            assert(oldm.worker_entry_live(i));
            let j = choose|j: int|
                0 <= j < oldm.environments@.len() && oldm.environments@[j].label@
                    == oldm.worker_labels@[i]@ && is_live(oldm.environments@[j].phase);
            assert(newm.environments@[j] == oldm.environments@[j]);
            assert(0 <= j < newm.environments@.len() && newm.environments@[j].label@
                == newm.worker_labels@[i]@ && is_live(newm.environments@[j].phase));
        }
        assert forall|j: int|
            0 <= j < newm.environments@.len() implies #[trigger] newm.env_live_recorded(j) by {
            if is_live(newm.environments@[j].phase) {
                assert(j < n);
                assert(newm.environments@[j] == oldm.environments@[j]);
                assert(oldm.env_live_recorded(j));
                let wi = choose|i: int|
                    0 <= i < oldm.worker_labels@.len() && oldm.worker_labels@[i]@
                        == oldm.environments@[j].label@;
                assert(0 <= wi < newm.worker_labels@.len() && newm.worker_labels@[wi]@
                    == newm.environments@[j].label@);
                assert(newm.has_worker(newm.environments@[j].label@));
            }
        }
    }

    /// The registry invariant survives a first start: the environment at
    /// `idx` leaves `Initialization` for `Running` and its label joins the
    /// live-worker record.
    proof fn lemma_wf_start_spawn(oldm: Manager, newm: Manager, idx: int)
        requires
            oldm.wf(),
            0 <= idx < oldm.environments@.len(),
            oldm.environments@[idx].phase == LifecycleState::Initialization,
            newm.environments@.len() == oldm.environments@.len(),
            newm.environments@[idx].label@ == oldm.environments@[idx].label@,
            newm.environments@[idx].phase == LifecycleState::Running,
            forall|i: int|
                0 <= i < oldm.environments@.len() && i != idx ==> #[trigger] newm.environments@[i]
                    == oldm.environments@[i],
            newm.worker_labels@.len() == oldm.worker_labels@.len() + 1,
            forall|i: int|
                0 <= i < oldm.worker_labels@.len() ==> #[trigger] newm.worker_labels@[i]
                    == oldm.worker_labels@[i],
            newm.worker_labels@.last()@ == oldm.environments@[idx].label@,
        ensures
            newm.wf(),
    {
        let label = oldm.environments@[idx].label@;
        let n = oldm.environments@.len() as int;
        let wn = oldm.worker_labels@.len() as int;
        assert(!oldm.has_worker(label)) by {
            if oldm.has_worker(label) {
                let wi = choose|i: int|
                    0 <= i < oldm.worker_labels@.len() && oldm.worker_labels@[i]@ == label;
                assert(oldm.worker_entry_live(wi));
                let j = choose|j: int|
                    0 <= j < oldm.environments@.len() && oldm.environments@[j].label@
                        == oldm.worker_labels@[wi]@ && is_live(oldm.environments@[j].phase);
                if j < idx {
                    assert(oldm.environments@[j].label@ != oldm.environments@[idx].label@);
                } else if j > idx {
                    assert(oldm.environments@[idx].label@ != oldm.environments@[j].label@);
                }
            }
        }
        assert forall|i: int, j: int|
            0 <= i < j < newm.environments@.len() implies newm.environments@[i].label@
            != newm.environments@[j].label@ by {
            assert(newm.environments@[i].label@ == oldm.environments@[i].label@);
            assert(newm.environments@[j].label@ == oldm.environments@[j].label@);
            assert(oldm.environments@[i].label@ != oldm.environments@[j].label@);
        }
        assert forall|i: int, j: int|
            0 <= i < j < newm.worker_labels@.len() implies newm.worker_labels@[i]@
            != newm.worker_labels@[j]@ by {
            if j < wn {
                assert(oldm.worker_labels@[i]@ != oldm.worker_labels@[j]@);
            } else {
                assert(newm.worker_labels@[j]@ == label);
                assert(newm.worker_labels@[i] == oldm.worker_labels@[i]);
                if oldm.worker_labels@[i]@ == label {
                    assert(oldm.has_worker(label));
                }
            }
        }
        assert forall|i: int|
            0 <= i < newm.worker_labels@.len() implies #[trigger] newm.worker_entry_live(i) by {
            if i < wn {
                assert(oldm.worker_entry_live(i));
                let j = choose|j: int|
                    0 <= j < oldm.environments@.len() && oldm.environments@[j].label@
                        == oldm.worker_labels@[i]@ && is_live(oldm.environments@[j].phase);
                assert(j != idx);
                assert(newm.environments@[j] == oldm.environments@[j]);
                assert(0 <= j < newm.environments@.len() && newm.environments@[j].label@
                    == newm.worker_labels@[i]@ && is_live(newm.environments@[j].phase));
            } else {
                assert(newm.worker_labels@[i]@ == label);
                assert(0 <= idx < newm.environments@.len() && newm.environments@[idx].label@
                    == newm.worker_labels@[i]@ && is_live(newm.environments@[idx].phase));
            }
        }
        assert forall|j: int|
            0 <= j < newm.environments@.len() implies #[trigger] newm.env_live_recorded(j) by {
            if is_live(newm.environments@[j].phase) {
                if j == idx {
                    assert(newm.worker_labels@[wn]@ == newm.environments@[j].label@);
                    assert(newm.has_worker(newm.environments@[j].label@));
                } else {
                    assert(newm.environments@[j] == oldm.environments@[j]);
                    assert(oldm.env_live_recorded(j));
                    let wi = choose|i: int|
                        0 <= i < oldm.worker_labels@.len() && oldm.worker_labels@[i]@
                            == oldm.environments@[j].label@;
                    assert(newm.worker_labels@[wi]@ == newm.environments@[j].label@);
                    assert(newm.has_worker(newm.environments@[j].label@));
                }
            }
        }
    }

    /// The registry invariant survives a stop: the live environment at
    /// `idx` becomes `Stopped` and its label leaves the live-worker record.
    proof fn lemma_wf_stop(oldm: Manager, newm: Manager, idx: int, widx: int)
        requires
            oldm.wf(),
            0 <= idx < oldm.environments@.len(),
            is_live(oldm.environments@[idx].phase),
            newm.environments@.len() == oldm.environments@.len(),
            newm.environments@[idx].label@ == oldm.environments@[idx].label@,
            newm.environments@[idx].phase == LifecycleState::Stopped,
            forall|i: int|
                0 <= i < oldm.environments@.len() && i != idx ==> #[trigger] newm.environments@[i]
                    == oldm.environments@[i],
            0 <= widx < oldm.worker_labels@.len(),
            oldm.worker_labels@[widx]@ == oldm.environments@[idx].label@,
            newm.worker_labels@ == oldm.worker_labels@.remove(widx),
        ensures
            newm.wf(),
            !newm.has_worker(oldm.environments@[idx].label@),
    {
        let label = oldm.environments@[idx].label@;
        let n = oldm.environments@.len() as int;
        oldm.worker_labels@.remove_ensures(widx);
        assert forall|i: int, j: int|
            0 <= i < j < newm.environments@.len() implies newm.environments@[i].label@
            != newm.environments@[j].label@ by {
            assert(newm.environments@[i].label@ == oldm.environments@[i].label@);
            assert(newm.environments@[j].label@ == oldm.environments@[j].label@);
            assert(oldm.environments@[i].label@ != oldm.environments@[j].label@);
        }
        assert forall|i: int|
            0 <= i < newm.worker_labels@.len() implies newm.worker_labels@[i]
                == oldm.worker_labels@[if i < widx {
                i
            } else {
                i + 1
            }] by {}
        assert forall|i: int, j: int|
            0 <= i < j < newm.worker_labels@.len() implies newm.worker_labels@[i]@
            != newm.worker_labels@[j]@ by {
            let iold: int = if i < widx { i } else { i + 1 };
            let jold: int = if j < widx { j } else { j + 1 };
            assert(iold < jold);
            assert(oldm.worker_labels@[iold]@ != oldm.worker_labels@[jold]@);
        }
        assert forall|i: int|
            0 <= i < newm.worker_labels@.len() implies !(newm.worker_labels@[i]@ == label) by {
            let iold: int = if i < widx { i } else { i + 1 };
            assert(iold != widx);
            if iold < widx {
                assert(oldm.worker_labels@[iold]@ != oldm.worker_labels@[widx]@);
            } else {
                assert(oldm.worker_labels@[widx]@ != oldm.worker_labels@[iold]@);
            }
        }
        assert forall|i: int|
            0 <= i < newm.worker_labels@.len() implies #[trigger] newm.worker_entry_live(i) by {
            let iold: int = if i < widx { i } else { i + 1 };
            assert(oldm.worker_entry_live(iold));
            let j = choose|j: int|
                0 <= j < oldm.environments@.len() && oldm.environments@[j].label@
                    == oldm.worker_labels@[iold]@ && is_live(oldm.environments@[j].phase);
            assert(newm.worker_labels@[i]@ != label);
            if j == idx {
                assert(oldm.environments@[j].label@ == label);
                assert(false);
            }
            assert(newm.environments@[j] == oldm.environments@[j]);
            assert(0 <= j < newm.environments@.len() && newm.environments@[j].label@
                == newm.worker_labels@[i]@ && is_live(newm.environments@[j].phase));
        }
        assert forall|j: int|
            0 <= j < newm.environments@.len() implies #[trigger] newm.env_live_recorded(j) by {
            if is_live(newm.environments@[j].phase) {
                assert(j != idx);
                assert(newm.environments@[j] == oldm.environments@[j]);
                assert(oldm.env_live_recorded(j));
                let wi = choose|i: int|
                    0 <= i < oldm.worker_labels@.len() && oldm.worker_labels@[i]@
                        == oldm.environments@[j].label@;
                if wi == widx {
                    assert(oldm.environments@[j].label@ == label);
                    if j < idx {
                        assert(oldm.environments@[j].label@ != oldm.environments@[idx].label@);
                    } else {
                        assert(oldm.environments@[idx].label@ != oldm.environments@[j].label@);
                    }
                    assert(false);
                }
                let winew: int = if wi < widx { wi } else { wi - 1 };
                assert(newm.worker_labels@[winew] == oldm.worker_labels@[wi]);
                assert(newm.worker_labels@[winew]@ == newm.environments@[j].label@);
                assert(newm.has_worker(newm.environments@[j].label@));
            }
        }
    }

    /// Creates an empty manager: no environments, no live workers.
    pub fn new() -> (m: Manager)
        ensures
            m.wf(),
            m.environments@.len() == 0,
            m.worker_labels@.len() == 0,
    {
        Manager { environments: Vec::new(), worker_labels: Vec::new() }
    }

    /// The registry index of the environment with this label, if any.
    fn find_env(&self, label: &String) -> (r: Option<usize>)
        ensures
            match r {
                Some(i) => i < self.environments@.len() && self.environments@[i as int].label@
                    == label@,
                None => !self.has_env(label@),
            },
    {
        let n = self.environments.len();
        let mut i: usize = 0;
        while i < n
            invariant
                n == self.environments@.len(),
                i <= n,
                forall|j: int| 0 <= j < i ==> self.environments@[j].label@ != label@,
            decreases n - i,
        {
            if self.environments[i].label == *label {
                return Some(i);
            }
            i = i + 1;
        }
        None
    }

    /// The live-worker index of this label, if any.
    fn find_worker(&self, label: &String) -> (r: Option<usize>)
        ensures
            match r {
                Some(i) => i < self.worker_labels@.len() && self.worker_labels@[i as int]@
                    == label@,
                None => !self.has_worker(label@),
            },
    {
        let n = self.worker_labels.len();
        let mut i: usize = 0;
        while i < n
            invariant
                n == self.worker_labels@.len(),
                i <= n,
                forall|j: int| 0 <= j < i ==> self.worker_labels@[j]@ != label@,
            decreases n - i,
        {
            if self.worker_labels[i] == *label {
                return Some(i);
            }
            i = i + 1;
        }
        None
    }

    /// Registers a new environment under `label` with the given
    /// configuration. Fails with `AlreadyExists` — and changes nothing — if
    /// and only if the label is already registered; otherwise the new
    /// environment joins the registry in `Initialization`, with no agents,
    /// and every existing environment is untouched.
    pub fn add_environment(&mut self, label: &String, block_rate_bits: u64, seed: u64) -> (r:
        Result<(), ManagerError>)
        requires
            old(self).wf(),
        ensures
            final(self).wf(),
            r == Ok::<(), ManagerError>(()) <==> !old(self).has_env(label@),
            r is Err ==> r == Err::<(), ManagerError>(ManagerError::AlreadyExists) && *final(self)
                == *old(self),
            r is Ok ==> {
                &&& final(self).environments@.len() == old(self).environments@.len() + 1
                &&& forall|i: int|
                    0 <= i < old(self).environments@.len() ==> final(self).environments@[i]
                        == old(self).environments@[i]
                &&& final(self).environments@.last().label@ == label@
                &&& final(self).environments@.last().phase == LifecycleState::Initialization
                &&& final(self).environments@.last().block_rate_bits == block_rate_bits
                &&& final(self).environments@.last().seed == seed
                &&& final(self).environments@.last().agents@.len() == 0
                &&& final(self).worker_labels == old(self).worker_labels
            },
            final(self).has_env(label@),
    {
        match self.find_env(label) {
            Some(_) => Err(ManagerError::AlreadyExists),
            None => {
                self.environments.push(Environment::new(label.clone(), block_rate_bits, seed));
                proof {
                    Manager::lemma_wf_push_env(*old(self), *self, label@);
                    self.lemma_env_index_is(label@, self.environments@.len() - 1);
                }
                Ok(())
            },
        }
    }

    /// Attaches an agent to the environment registered under `label`,
    /// consuming the movable agent. Fails with `NotFound` — and changes
    /// nothing — if and only if the label is unknown; otherwise the agent
    /// joins that environment's pending set under its name and everything
    /// else is untouched.
    pub fn add_agent(&mut self, agent: Agent<NotAttached>, label: &String) -> (r: Result<
        (),
        ManagerError,
    >)
        requires
            old(self).wf(),
        ensures
            final(self).wf(),
            r == Ok::<(), ManagerError>(()) <==> old(self).has_env(label@),
            r is Err ==> r == Err::<(), ManagerError>(ManagerError::NotFound) && *final(self)
                == *old(self),
            r is Ok ==> {
                let idx = old(self).env_index(label@);
                let oldenv = old(self).environments@[idx];
                let newenv = final(self).environments@[idx];
                &&& final(self).environments@.len() == old(self).environments@.len()
                &&& forall|i: int|
                    0 <= i < old(self).environments@.len() && i != idx ==> final(self)
                        .environments@[i] == old(self).environments@[i]
                &&& newenv.agents@.len() == oldenv.agents@.len() + 1
                &&& newenv.agents@.last().name@ == agent.name@
                &&& forall|i: int|
                    0 <= i < oldenv.agents@.len() ==> newenv.agents@[i] == oldenv.agents@[i]
                &&& newenv.label == oldenv.label
                &&& newenv.phase == oldenv.phase
                &&& newenv.cell == oldenv.cell
                &&& newenv.signal == oldenv.signal
                &&& newenv.ticks == oldenv.ticks
                &&& newenv.block_rate_bits == oldenv.block_rate_bits
                &&& newenv.seed == oldenv.seed
                &&& final(self).worker_labels == old(self).worker_labels
            },
    {
        match self.find_env(label) {
            None => Err(ManagerError::NotFound),
            Some(i) => {
                proof {
                    self.lemma_env_index_is(label@, i as int);
                }
                let env = &mut self.environments[i];
                env.add_agent(agent);
                proof {
                    assert forall|k: int|
                        0 <= k < old(self).environments@.len() implies (
                    #[trigger] self.environments@[k]).label@ == old(self).environments@[k].label@
                        && is_live(self.environments@[k].phase) == is_live(
                        old(self).environments@[k].phase,
                    ) by {
                        if k != i as int {
                            assert(self.environments@[k] == old(self).environments@[k]);
                        }
                    }
                    Manager::lemma_wf_same_liveness(*old(self), *self);
                }
                Ok(())
            },
        }
    }

    /// Starts or resumes the environment registered under `label`, following
    /// the lifecycle state machine exactly. `NotFound` if the label is
    /// unknown. From `Initialization` the environment becomes `Running`, its
    /// label joins the live-worker record, and the caller receives the
    /// worker link to run on a fresh thread. From `Paused` the environment
    /// becomes `Running` and the blocked worker is notified under the pause
    /// signal's mutex. From `Running` or `Stopped` the request is rejected
    /// with the named error and nothing changes.
    pub fn start_environment(&mut self, label: &String) -> (r: Result<StartEffect, ManagerError>)
        requires
            old(self).wf(),
        ensures
            final(self).wf(),
            !old(self).has_env(label@) ==> r == Err::<StartEffect, ManagerError>(
                ManagerError::NotFound,
            ) && *final(self) == *old(self),
            old(self).has_env(label@) ==> {
                let idx = old(self).env_index(label@);
                let oldenv = old(self).environments@[idx];
                match start_transition(oldenv.phase) {
                    Ok(next) => {
                        &&& r is Ok
                        &&& final(self).environments@ == old(self).environments@.update(
                            idx,
                            (Environment { phase: next, ..oldenv }),
                        )
                        &&& (oldenv.phase == LifecycleState::Initialization ==> {
                            &&& final(self).worker_labels@.len() == old(
                                self,
                            ).worker_labels@.len() + 1
                            &&& (forall|i: int|
                                0 <= i < old(self).worker_labels@.len()
                                    ==> #[trigger] final(self).worker_labels@[i] == old(
                                    self,
                                ).worker_labels@[i])
                            &&& final(self).worker_labels@.last()@ == label@
                            &&& (r matches Ok(StartEffect::Spawn(link)) && link.cell == oldenv.cell
                                && link.signal == oldenv.signal && link.ticks == oldenv.ticks)
                        })
                        &&& (oldenv.phase == LifecycleState::Paused ==> final(self).worker_labels
                            == old(self).worker_labels && r == Ok::<StartEffect, ManagerError>(
                            StartEffect::Resumed,
                        ))
                    },
                    Err(e) => r == Err::<StartEffect, ManagerError>(e) && *final(self) == *old(
                        self,
                    ),
                }
            },
    {
        match self.find_env(label) {
            None => Err(ManagerError::NotFound),
            Some(i) => {
                proof {
                    self.lemma_env_index_is(label@, i as int);
                }
                let ph = self.environments[i].phase;
                match ph {
                    LifecycleState::Initialization => {
                        let env = &mut self.environments[i];
                        env.set_phase(LifecycleState::Running);
                        let link = self.environments[i].worker_link();
                        self.worker_labels.push(label.clone());
                        proof {
                            Manager::lemma_wf_start_spawn(*old(self), *self, i as int);
                        }
                        Ok(StartEffect::Spawn(link))
                    },
                    LifecycleState::Paused => {
                        let env = &mut self.environments[i];
                        env.set_phase(LifecycleState::Running);
                        self.environments[i].signal.notify_waiters();
                        proof {
                            assert forall|k: int|
                                0 <= k < old(self).environments@.len() implies (
                            #[trigger] self.environments@[k]).label@ == old(
                                self,
                            ).environments@[k].label@ && is_live(self.environments@[k].phase)
                                == is_live(old(self).environments@[k].phase) by {
                                if k != i as int {
                                    assert(self.environments@[k] == old(self).environments@[k]);
                                }
                            }
                            Manager::lemma_wf_same_liveness(*old(self), *self);
                        }
                        Ok(StartEffect::Resumed)
                    },
                    LifecycleState::Running => Err(ManagerError::AlreadyRunning),
                    LifecycleState::Stopped => Err(ManagerError::CannotRestartStopped),
                }
            },
        }
    }

    /// Pauses the environment registered under `label`. `NotFound` if the
    /// label is unknown. From `Running` the environment becomes `Paused`:
    /// the shared cell now holds the paused byte, and the worker blocks on
    /// the pause signal when it next observes it. Any other phase is
    /// rejected with the named error and nothing changes.
    pub fn pause_environment(&mut self, label: &String) -> (r: Result<(), ManagerError>)
        requires
            old(self).wf(),
        ensures
            final(self).wf(),
            !old(self).has_env(label@) ==> r == Err::<(), ManagerError>(ManagerError::NotFound)
                && *final(self) == *old(self),
            old(self).has_env(label@) ==> {
                let idx = old(self).env_index(label@);
                let oldenv = old(self).environments@[idx];
                match pause_transition(oldenv.phase) {
                    Ok(next) => {
                        &&& r == Ok::<(), ManagerError>(())
                        &&& final(self).environments@ == old(self).environments@.update(
                            idx,
                            (Environment { phase: next, ..oldenv }),
                        )
                        &&& final(self).worker_labels == old(self).worker_labels
                    },
                    Err(e) => r == Err::<(), ManagerError>(e) && *final(self) == *old(self),
                }
            },
    {
        match self.find_env(label) {
            None => Err(ManagerError::NotFound),
            Some(i) => {
                proof {
                    self.lemma_env_index_is(label@, i as int);
                }
                let ph = self.environments[i].phase;
                match ph {
                    LifecycleState::Running => {
                        let env = &mut self.environments[i];
                        env.set_phase(LifecycleState::Paused);
                        proof {
                            assert forall|k: int|
                                0 <= k < old(self).environments@.len() implies (
                            #[trigger] self.environments@[k]).label@ == old(
                                self,
                            ).environments@[k].label@ && is_live(self.environments@[k].phase)
                                == is_live(old(self).environments@[k].phase) by {
                                if k != i as int {
                                    assert(self.environments@[k] == old(self).environments@[k]);
                                }
                            }
                            Manager::lemma_wf_same_liveness(*old(self), *self);
                        }
                        Ok(())
                    },
                    LifecycleState::Initialization => Err(ManagerError::NotRunning),
                    LifecycleState::Paused => Err(ManagerError::AlreadyPaused),
                    LifecycleState::Stopped => Err(ManagerError::CannotPauseStopped),
                }
            },
        }
    }

    /// Stops the environment registered under `label`. `NotFound` if the
    /// label is unknown. From `Running` or `Paused` the environment becomes
    /// `Stopped` — terminal — and its label leaves the live-worker record;
    /// the embedding runtime must then join the worker's handle, and only
    /// when that join returns has the worker fully terminated. Any other
    /// phase is rejected with the named error and nothing changes.
    pub fn stop_environment(&mut self, label: &String) -> (r: Result<(), ManagerError>)
        requires
            old(self).wf(),
        ensures
            final(self).wf(),
            !old(self).has_env(label@) ==> r == Err::<(), ManagerError>(ManagerError::NotFound)
                && *final(self) == *old(self),
            old(self).has_env(label@) ==> {
                let idx = old(self).env_index(label@);
                let oldenv = old(self).environments@[idx];
                match stop_transition(oldenv.phase) {
                    Ok(next) => {
                        &&& r == Ok::<(), ManagerError>(())
                        &&& final(self).environments@ == old(self).environments@.update(
                            idx,
                            (Environment { phase: next, ..oldenv }),
                        )
                        &&& final(self).worker_labels@ == old(self).worker_labels@.remove(
                            old(self).worker_index(label@),
                        )
                        &&& !final(self).has_worker(label@)
                    },
                    Err(e) => r == Err::<(), ManagerError>(e) && *final(self) == *old(self),
                }
            },
    {
        match self.find_env(label) {
            None => Err(ManagerError::NotFound),
            Some(i) => {
                proof {
                    self.lemma_env_index_is(label@, i as int);
                }
                let ph = self.environments[i].phase;
                match ph {
                    LifecycleState::Running | LifecycleState::Paused => {
                        match self.find_worker(label) {
                            None => {
                                // Unreachable: the registry invariant says a
                                // running or paused environment always has a
                                // live-worker entry, so the two records can
                                // never desynchronize.
                                proof {
                                    assert(self.env_live_recorded(i as int));
                                    assert(false);
                                }
                                Err(ManagerError::NotRunning)
                            },
                            Some(wi) => {
                                proof {
                                    self.lemma_worker_index_is(label@, wi as int);
                                }
                                self.worker_labels.remove(wi);
                                let env = &mut self.environments[i];
                                env.set_phase(LifecycleState::Stopped);
                                // A paused worker is blocked on the signal
                                // and must be woken to observe the stop.
                                self.environments[i].signal.notify_waiters();
                                proof {
                                    Manager::lemma_wf_stop(
                                        *old(self),
                                        *self,
                                        i as int,
                                        wi as int,
                                    );
                                }
                                Ok(())
                            },
                        }
                    },
                    LifecycleState::Initialization => Err(ManagerError::NotRunning),
                    LifecycleState::Stopped => Err(ManagerError::AlreadyStopped),
                }
            },
        }
    }
}

/// An empty manager, exactly as [`Manager::new`] builds one.
impl Default for Manager {
    fn default() -> (m: Manager)
        ensures
            m.wf(),
            m.environments@.len() == 0,
            m.worker_labels@.len() == 0,
    {
        Manager::new()
    }
}

} // verus!
