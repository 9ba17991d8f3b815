//! A generic, embeddable finite-state-machine execution engine.
//!
//! A [`StateMachine`] owns a user-supplied data value, a fixed-capacity
//! array of named [`State`]s and a capacity-by-capacity matrix of guarded
//! [`Transition`]s between them. The host drives it by calling
//! [`StateMachine::run`] from its own loop: each call performs one tick —
//! it initializes the active state once, executes it, and moves along the
//! first outgoing transition whose guard passes. Hook failures are routed
//! through an optional pair of recovery callbacks that may redirect the
//! active state by slot index or by name.

mod errors;
mod hooks;
mod state;
mod transition;
mod machine;

pub use errors::Destination;
pub use errors::FsmError;
pub use errors::FsmResult;
pub use hooks::ErrorHooks;
pub use hooks::StateHooks;
pub use hooks::TransitionHooks;
pub use state::State;
pub use transition::Transition;
pub use machine::StateMachine;
