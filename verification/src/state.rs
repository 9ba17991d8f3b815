//! A named unit of behaviour: an init hook run once on activation and an
//! exec hook run on every tick while active.

use vstd::prelude::*;

use crate::errors::FsmError;
use crate::hooks::StateHooks;

verus! {

/// A named state. Registered into a [`crate::StateMachine`] slot with
/// [`crate::StateMachine::add_state`], which assigns it a stable index.
pub struct State<H> {
    /// The human-readable name, used by name-based recovery redirects.
    pub name: String,
    /// The init/exec hook pair.
    pub hooks: H,
}

impl<H> State<H> {
    /// Constructs an unregistered state from a name and its hook pair.
    pub fn new(name: String, hooks: H) -> (r: State<H>)
        ensures
            r.name == name,
            r.hooks == hooks,
    {
        State { name, hooks }
    }

    /// Invokes the init hook on the shared data value.
    ///
    /// The result is whatever the user hook returns; the engine pins
    /// nothing about it or about how the hook mutates `data`.
    pub fn do_init<T>(&self, data: &mut T) -> Result<(), FsmError> where H: StateHooks<T> {
        self.hooks.on_init(data)
    }

    /// Invokes the exec hook on the shared data value.
    pub fn do_exec<T>(&self, data: &mut T) -> Result<(), FsmError> where H: StateHooks<T> {
        self.hooks.on_exec(data)
    }
}

} // verus!
