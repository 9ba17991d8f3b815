//! The capability interfaces through which user code plugs into the engine.
//!
//! Every callback a state, a transition or the recovery path runs is a
//! method of one of these traits, implemented by the host on a type of its
//! own. The engine states nothing about what a hook does to the shared
//! data value or about which result it returns: its contracts hold for
//! every implementation.

use vstd::prelude::*;

use crate::errors::Destination;
use crate::errors::FsmError;

verus! {

/// The pair of callbacks a [`crate::State`] carries: `on_init` runs once
/// each time the state becomes active, `on_exec` runs on every tick while
/// it stays active.
pub trait StateHooks<T> {
    /// Invoked once when the owning state becomes the active state.
    fn on_init(&self, data: &mut T) -> Result<(), FsmError>;

    /// Invoked on every tick while the owning state is active.
    fn on_exec(&self, data: &mut T) -> Result<(), FsmError>;
}

/// The pair of callbacks a [`crate::Transition`] carries: `on_check` is the
/// guard, `on_done` the one-time completion mutator run when the guard
/// passes.
pub trait TransitionHooks<T> {
    /// The guard predicate; the transition fires when it returns true.
    fn on_check(&self, data: &T) -> bool;

    /// The completion callback, run once when the guard has passed.
    fn on_done(&self, data: &mut T) -> Result<(), FsmError>;
}

/// A recovery callback, invoked whenever a state or transition hook fails
/// during a tick. Returning `Some` destination asks the machine to
/// redirect its active state.
pub trait ErrorHooks<T> {
    /// Receives the failed hook's error kind; may redirect the machine.
    fn on_error(&self, error: FsmError, data: &mut T) -> Option<Destination>;
}

} // verus!
