//! Agents: units of work attached to an environment before it starts.
//!
//! An agent moves through two phases, tracked in its type: `NotAttached`
//! (freely movable) and `Attached` (bound to exactly one environment).
//! Attachment consumes the unattached value, so an agent can never be bound
//! twice.

use vstd::prelude::*;

use core::marker::PhantomData;

verus! {

/// Phase marker: the agent is not yet bound to an environment.
pub struct NotAttached;

/// Phase marker: the agent is bound to exactly one environment.
pub struct Attached;

/// A unit of work that can be attached to an environment while that
/// environment is still in its initialization phase.
pub struct Agent<Phase> {
    /// The agent's name.
    pub name: String,
    /// The phase the agent is in, carried in the type.
    pub phase: PhantomData<Phase>,
}

impl Agent<NotAttached> {
    /// Creates a detached agent with the given name.
    pub fn new(name: String) -> (a: Agent<NotAttached>)
        ensures
            a.name@ == name@,
    {
        Agent { name, phase: PhantomData }
    }

    /// Binds the agent: consumes the movable value and yields the attached
    /// one, carrying the same name.
    pub fn attach(self) -> (a: Agent<Attached>)
        ensures
            a.name@ == self.name@,
    {
        Agent { name: self.name, phase: PhantomData }
    }
}

} // verus!
