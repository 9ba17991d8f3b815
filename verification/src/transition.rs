//! A named directed edge between two state slots, carrying a guard and a
//! one-time completion hook.

use vstd::prelude::*;

use crate::errors::FsmError;
use crate::hooks::TransitionHooks;

verus! {

/// A named transition. Registered into the machine's matrix with
/// [`crate::StateMachine::add_transition`] under a (source, destination)
/// slot pair.
pub struct Transition<G> {
    /// The human-readable name.
    pub name: String,
    /// The source slot index this transition was built for.
    pub src: usize,
    /// The destination slot index this transition was built for.
    pub dst: usize,
    /// The guard/completion hook pair.
    pub hooks: G,
}

impl<G> Transition<G> {
    /// Constructs an unregistered transition from a name, its endpoints
    /// and its hook pair.
    pub fn new(name: String, src: usize, dst: usize, hooks: G) -> (r: Transition<G>)
        ensures
            r.name == name,
            r.src == src,
            r.dst == dst,
            r.hooks == hooks,
    {
        Transition { name, src, dst, hooks }
    }

    /// Evaluates the guard on the shared data value.
    ///
    /// The result is whatever the user guard returns; the engine pins
    /// nothing about it.
    pub fn do_check<T>(&self, data: &T) -> bool where G: TransitionHooks<T> {
        self.hooks.on_check(data)
    }

    /// Invokes the completion hook on the shared data value.
    pub fn do_done<T>(&self, data: &mut T) -> Result<(), FsmError> where G: TransitionHooks<T> {
        self.hooks.on_done(data)
    }
}

} // verus!
