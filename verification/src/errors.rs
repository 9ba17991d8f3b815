//! Error kinds returned by registration and lookup operations, and the
//! redirect target a recovery hook may name.

use vstd::prelude::*;

verus! {

/// The result type returned by registration operations and by user hooks.
pub type FsmResult = Result<(), FsmError>;

/// Every way a registration or lookup operation can fail.
///
/// Runtime hook failures carry one of these kinds as well: a hook chooses
/// the kind it reports, and the engine hands it unchanged to the recovery
/// callbacks.
#[derive(Copy, Clone, Debug, PartialEq, Eq, Structural)]
pub enum FsmError {
    /// A state index at or beyond the occupied slot count.
    StateIndexOutOfBounds,
    /// A transition endpoint at or beyond the occupied slot count.
    TransitionIndexOutOfBounds,
    /// A registration attempted once every slot is occupied.
    MaxNumberOfStatesExceeded,
    /// A transition whose source and destination slot are the same.
    AddTransitionSrcDstStatesEqual,
    /// An in-range slot that holds no state.
    StateIsEmpty,
    /// An in-range matrix cell that holds no transition.
    TransitionIsEmpty,
}

/// Where a recovery hook asks the machine to go next: a slot index or a
/// state name. An index at or beyond the occupied count, or a name no
/// registered state bears, is silently ignored.
pub enum Destination {
    Index(usize),
    Name(String),
}

} // verus!
