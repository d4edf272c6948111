//! The pause signal: a mutex/condition-variable pair shared between the
//! manager and one worker thread.
//!
//! The mutex guards no payload; it exists to satisfy the condition-variable
//! contract. The waiting side re-checks the shared state cell under the
//! mutex before every wait, and the resuming side takes the same mutex
//! before notifying, so a resume that races with a worker entering its wait
//! can never be lost: either the worker sees the new state and never waits,
//! or it is already waiting when the notification is sent.

use vstd::prelude::*;

use std::sync::atomic::AtomicU8;
use std::sync::atomic::Ordering;
use std::sync::Arc;
use std::sync::Condvar;
use std::sync::Mutex;
use std::sync::MutexGuard;

use crate::state::STATE_BYTE_PAUSED;

verus! {

#[verifier::external_type_specification]
#[verifier::external_body]
#[verifier::reject_recursive_types(T)]
pub struct ExMutex<T: ?Sized>(Mutex<T>);

#[verifier::external_type_specification]
#[verifier::external_body]
pub struct ExCondvar(Condvar);

#[verifier::external_type_specification]
#[verifier::external_body]
#[verifier::reject_recursive_types(T)]
pub struct ExMutexGuard<'a, T: ?Sized + 'a>(MutexGuard<'a, T>);

pub assume_specification<T>[ Mutex::<T>::new ](t: T) -> Mutex<T>;

pub assume_specification[ Condvar::new ]() -> Condvar;

/// Whether the shared cell currently holds the paused byte. The cell is
/// written by another thread, so two reads may differ; the result reflects
/// one momentary read.
pub fn cell_is_paused(cell: &AtomicU8) -> bool {
    cell.load(Ordering::Relaxed) == STATE_BYTE_PAUSED
}

/// Relies on std::sync::Mutex::lock: returns a guard that holds the lock
/// until it is dropped, or an error if another thread panicked while holding
/// the lock. No thread of this library panics while holding it.
#[verifier::external_body]
fn lock_signal<'a>(m: &'a Mutex<()>) -> Option<MutexGuard<'a, ()>> {
    m.lock().ok()
}

/// Relies on std::sync::Condvar::wait_while: releases the guard's lock and
/// blocks the calling thread until a notification arrives while the
/// condition is false; the condition is re-checked under the mutex before
/// every wait and after every (possibly spurious) wakeup. Returns once the
/// shared cell no longer holds the paused byte, with the lock reacquired.
#[verifier::external_body]
fn wait_until_resumed<'a>(
    cv: &Condvar,
    guard: MutexGuard<'a, ()>,
    cell: &AtomicU8,
) -> Option<MutexGuard<'a, ()>> {
    cv.wait_while(guard, |_unit| cell_is_paused(cell)).ok()
}

/// Relies on std::sync::Condvar::notify_all: wakes every thread currently
/// blocked in a wait on this condition variable.
#[verifier::external_body]
fn notify_all_signal(cv: &Condvar) {
    cv.notify_all();
}

/// The mutex/condition-variable pair a paused worker blocks on. Cloning
/// shares the same underlying pair: the manager's handle and the worker's
/// handle signal each other.
pub struct PauseSignal {
    pair: Arc<(Mutex<()>, Condvar)>,
}

impl Clone for PauseSignal {
    /// The clone signals the same underlying pair.
    fn clone(&self) -> (c: PauseSignal)
        ensures
            c == *self,
    {
        PauseSignal { pair: self.pair.clone() }
    }
}

impl PauseSignal {
    /// Creates a fresh pair with no waiters.
    pub fn new() -> PauseSignal {
        PauseSignal { pair: Arc::new((Mutex::new(()), Condvar::new())) }
    }

    /// Blocks the calling worker thread for as long as the shared cell holds
    /// the paused byte. The cell is checked under the mutex before every
    /// wait, so a resume notification sent under the same mutex cannot fall
    /// between the check and the wait; spurious wakeups re-check and go back
    /// to waiting.
    pub fn wait_while_paused(&self, cell: &AtomicU8) {
        let pair = &*self.pair;
        match lock_signal(&pair.0) {
            Some(guard) => {
                let _reacquired = wait_until_resumed(&pair.1, guard, cell);
            },
            None => {},
        }
    }

    /// Wakes every worker blocked on this signal. The notification is sent
    /// while the pair's mutex is held, which closes the race against a
    /// worker that has checked the state and is about to wait.
    pub fn notify_waiters(&self) {
        let pair = &*self.pair;
        let _held = lock_signal(&pair.0);
        notify_all_signal(&pair.1);
    }
}

} // verus!
