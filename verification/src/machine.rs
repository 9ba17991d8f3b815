//! The state-machine container and its tick algorithm.

use vstd::prelude::*;

use crate::errors::Destination;
use crate::errors::FsmError;
use crate::hooks::ErrorHooks;
use crate::hooks::StateHooks;
use crate::hooks::TransitionHooks;
use crate::state::State;
use crate::transition::Transition;

verus! {

/// A finite-state machine over a shared data value of type `T`, whose
/// states carry hooks of type `H`, whose transitions carry hooks of type
/// `G`, and whose recovery callbacks are of type `E`.
///
/// Slots are append-only: `add_state` fills them densely from index 0 and
/// nothing removes or reorders them. The transition matrix is
/// capacity-by-capacity; only cells whose endpoints are occupied and
/// distinct are ever filled.
pub struct StateMachine<T, H, G, E> {
    data: T,
    states: Vec<Option<State<H>>>,
    num_states: usize,
    transitions: Vec<Vec<Option<Transition<G>>>>,
    active_state: Option<usize>,
    active_state_initialized: bool,
    error: Option<(E, E)>,
}

impl<T, H, G, E> StateMachine<T, H, G, E> {
    /// The configured capacity: the length of the slot array.
    pub closed spec fn capacity(&self) -> nat {
        self.states@.len()
    }

    /// How many slots are occupied so far.
    pub closed spec fn occupied(&self) -> nat {
        self.num_states as nat
    }

    /// What the slot array holds at index `i`.
    pub closed spec fn slot(&self, i: int) -> Option<State<H>> {
        self.states@[i]
    }

    /// What the transition matrix holds at (source, destination).
    pub closed spec fn cell(&self, src: int, dst: int) -> Option<Transition<G>> {
        self.transitions@[src]@[dst]
    }

    /// The active slot index, if one has been set.
    pub closed spec fn active(&self) -> Option<usize> {
        self.active_state
    }

    /// Whether the active state's init hook has run since the slot last
    /// became active.
    pub closed spec fn initialized(&self) -> bool {
        self.active_state_initialized
    }

    /// The recovery hook pair, if one has been installed.
    pub closed spec fn error_hooks(&self) -> Option<(E, E)> {
        self.error
    }

    /// Whether a recovery hook pair is installed.
    pub open spec fn recovery_installed(&self) -> bool {
        self.error_hooks() is Some
    }

    /// The shared data value.
    pub closed spec fn data_value(&self) -> T {
        self.data
    }

    /// The name of the state in slot `i` (meaningful for occupied slots).
    pub open spec fn slot_name(&self, i: int) -> Seq<char> {
        self.slot(i)->Some_0.name@
    }

    /// Whether some occupied slot holds a state named `n`.
    pub open spec fn has_state_named(&self, n: Seq<char>) -> bool {
        exists|k: int| 0 <= k < self.occupied() && self.slot_name(k) == n
    }

    /// Whether `j` is the first occupied slot holding a state named `n`:
    /// the slot the name scan resolves the name to.
    pub open spec fn is_first_slot_named(&self, n: Seq<char>, j: usize) -> bool {
        &&& j < self.occupied()
        &&& self.slot_name(j as int) == n
        &&& forall|k: int| 0 <= k < j ==> self.slot_name(k) != n
    }

    /// Well-formedness: slots are dense, the matrix is square with the
    /// configured capacity, only distinct occupied endpoints hold
    /// transitions, and the active slot (if set) is occupied.
    pub closed spec fn wf(&self) -> bool {
        &&& self.num_states <= self.states@.len()
        &&& forall|i: int| 0 <= i < self.num_states ==> (#[trigger] self.states@[i]) is Some
        &&& forall|i: int|
            self.num_states <= i < self.states@.len() ==> (#[trigger] self.states@[i]) is None
        &&& self.transitions@.len() == self.states@.len()
        &&& forall|s: int|
            0 <= s < self.transitions@.len() ==> (#[trigger] self.transitions@[s])@.len()
                == self.states@.len()
        &&& forall|s: int, d: int|
            0 <= s < self.transitions@.len() && 0 <= d < self.transitions@.len()
                && (#[trigger] self.transitions@[s]@[d]) is Some ==> s < self.num_states && d
                < self.num_states && s != d
        &&& match self.active_state {
            Some(i) => i < self.num_states,
            None => true,
        }
    }

    /// Exports the facts of `wf` that callers reason with, phrased over
    /// the public spec functions.
    pub proof fn lemma_wf_facts(&self)
        requires
            self.wf(),
        ensures
            self.occupied() <= self.capacity(),
            forall|i: int| 0 <= i < self.occupied() ==> (#[trigger] self.slot(i)) is Some,
            forall|i: int|
                self.occupied() <= i < self.capacity() ==> (#[trigger] self.slot(i)) is None,
            forall|s: int, d: int|
                0 <= s < self.capacity() && 0 <= d < self.capacity() && (#[trigger] self.cell(
                    s,
                    d,
                )) is Some ==> s < self.occupied() && d < self.occupied() && s != d,
            match self.active() {
                Some(i) => i < self.occupied(),
                None => true,
            },
    {
    }

    /// The active slot index, if one has been set: what the next tick
    /// will initialize or execute.
    pub fn active_state_index(&self) -> (r: Option<usize>)
        ensures
            r == self.active(),
    {
        self.active_state
    }

    /// Whether the active state's init hook has run since its slot last
    /// became active.
    pub fn is_active_state_initialized(&self) -> (r: bool)
        ensures
            r == self.initialized(),
    {
        self.active_state_initialized
    }

    /// Read access to the shared data value the hooks operate on.
    pub fn data(&self) -> (r: &T)
        ensures
            r == self.data_value(),
    {
        &self.data
    }

    /// How one `add_state` call relates the machine before it, the state
    /// handed in, the machine after it and the returned result: while a
    /// slot remains the registration is accepted into the next slot, whose
    /// index it returns; once every slot is occupied it is refused and the
    /// machine is left untouched.
    pub open spec fn add_state_step(
        pre: Self,
        s: State<H>,
        post: Self,
        r: Result<usize, FsmError>,
    ) -> bool {
        &&& post.capacity() == pre.capacity()
        &&& if pre.occupied() < pre.capacity() {
            &&& r matches Ok(idx) && idx == pre.occupied()
            &&& post.occupied() == pre.occupied() + 1
            &&& post.slot(pre.occupied() as int) == Some(s)
            &&& forall|i: int| 0 <= i < pre.occupied() ==> post.slot(i) == pre.slot(i)
        } else {
            &&& r matches Err(e) && e == FsmError::MaxNumberOfStatesExceeded
            &&& post == pre
        }
    }

    /// Appends `s` to the slot array. Fails with
    /// [`FsmError::MaxNumberOfStatesExceeded`] exactly when the occupied
    /// count has reached the capacity; otherwise occupies the next slot
    /// and returns its index.
    pub fn add_state(&mut self, s: State<H>) -> (r: Result<usize, FsmError>)
        requires
            old(self).wf(),
        ensures
            final(self).wf(),
            Self::add_state_step(*old(self), s, *final(self), r),
            final(self).capacity() == old(self).capacity(),
            forall|s0: int, d0: int| final(self).cell(s0, d0) == old(self).cell(s0, d0),
            final(self).active() == old(self).active(),
            final(self).initialized() == old(self).initialized(),
            final(self).error_hooks() == old(self).error_hooks(),
            final(self).data_value() == old(self).data_value(),
    {
        if self.num_states >= self.states.len() {
            Err(FsmError::MaxNumberOfStatesExceeded)
        } else {
            let index = self.num_states;
            self.states[index] = Some(s);
            self.num_states = index + 1;
            Ok(index)
        }
    }

    /// Stores `t` at matrix cell (`src`, `dst`), overwriting any prior
    /// entry there. Fails with
    /// [`FsmError::TransitionIndexOutOfBounds`] when either endpoint is at
    /// or beyond the occupied count, and with
    /// [`FsmError::AddTransitionSrcDstStatesEqual`] when the endpoints are
    /// equal, whatever the matrix already holds; either failure leaves the
    /// machine untouched.
    pub fn add_transition(&mut self, t: Transition<G>, src: usize, dst: usize) -> (r: Result<
        (),
        FsmError,
    >)
        requires
            old(self).wf(),
        ensures
            final(self).wf(),
            src >= old(self).occupied() || dst >= old(self).occupied() ==> (r matches Err(e)
                && e == FsmError::TransitionIndexOutOfBounds && *final(self) == *old(self)),
            src < old(self).occupied() && dst < old(self).occupied() && src == dst ==> (
            r matches Err(e) && e == FsmError::AddTransitionSrcDstStatesEqual && *final(self) == *old(
                self,
            )),
            src < old(self).occupied() && dst < old(self).occupied() && src != dst ==> {
                &&& r is Ok
                &&& final(self).cell(src as int, dst as int) == Some(t)
                &&& forall|s0: int, d0: int|
                    0 <= s0 < old(self).capacity() && 0 <= d0 < old(self).capacity() && !(s0 == src
                        && d0 == dst) ==> final(self).cell(s0, d0) == old(self).cell(s0, d0)
            },
            final(self).capacity() == old(self).capacity(),
            final(self).occupied() == old(self).occupied(),
            forall|i: int| final(self).slot(i) == old(self).slot(i),
            final(self).active() == old(self).active(),
            final(self).initialized() == old(self).initialized(),
            final(self).error_hooks() == old(self).error_hooks(),
            final(self).data_value() == old(self).data_value(),
    {
        if src >= self.num_states || dst >= self.num_states {
            Err(FsmError::TransitionIndexOutOfBounds)
        } else if src == dst {
            Err(FsmError::AddTransitionSrcDstStatesEqual)
        } else {
            self.transitions[src][dst] = Some(t);
            Ok(())
        }
    }

    /// Makes slot `s` the active state, leaving the initialized flag as it
    /// was. Fails with [`FsmError::StateIndexOutOfBounds`] when `s` is at
    /// or beyond the occupied count, leaving the machine untouched.
    pub fn set_active_state(&mut self, s: usize) -> (r: Result<(), FsmError>)
        requires
            old(self).wf(),
        ensures
            final(self).wf(),
            s < old(self).occupied() ==> r is Ok && final(self).active() == Some(s) && final(self).initialized()
                == old(self).initialized(),
            s >= old(self).occupied() ==> (r matches Err(e) && e
                == FsmError::StateIndexOutOfBounds && *final(self) == *old(self)),
            final(self).capacity() == old(self).capacity(),
            final(self).occupied() == old(self).occupied(),
            forall|i: int| final(self).slot(i) == old(self).slot(i),
            forall|s0: int, d0: int| final(self).cell(s0, d0) == old(self).cell(s0, d0),
            final(self).initialized() == old(self).initialized(),
            final(self).error_hooks() == old(self).error_hooks(),
            final(self).data_value() == old(self).data_value(),
    {
        match self.state(s) {
            Ok(_) => {
                self.active_state = Some(s);
                Ok(())
            },
            Err(e) => Err(e),
        }
    }

    /// Installs the recovery hook pair: `init` is called first on every
    /// hook failure, its result ignored; `exec` is called second and may
    /// redirect the active state.
    pub fn set_error_callbacks(&mut self, init: E, exec: E)
        requires
            old(self).wf(),
        ensures
            final(self).wf(),
            final(self).error_hooks() == Some((init, exec)),
            final(self).capacity() == old(self).capacity(),
            final(self).occupied() == old(self).occupied(),
            forall|i: int| final(self).slot(i) == old(self).slot(i),
            forall|s0: int, d0: int| final(self).cell(s0, d0) == old(self).cell(s0, d0),
            final(self).active() == old(self).active(),
            final(self).initialized() == old(self).initialized(),
            final(self).data_value() == old(self).data_value(),
    {
        self.error = Some((init, exec));
    }

    /// Bounds-checked read access to the state in slot `index`. Fails with
    /// [`FsmError::StateIndexOutOfBounds`] when `index` is at or beyond
    /// the occupied count; since occupied slots are dense, every in-range
    /// slot holds a state.
    pub fn state(&self, index: usize) -> (r: Result<&State<H>, FsmError>)
        requires
            self.wf(),
        ensures
            index < self.occupied() ==> (r matches Ok(st) && Some(*st) == self.slot(
                index as int,
            )),
            index >= self.occupied() ==> (r matches Err(e) && e
                == FsmError::StateIndexOutOfBounds),
    {
        if index >= self.num_states {
            Err(FsmError::StateIndexOutOfBounds)
        } else {
            match &self.states[index] {
                Some(state) => Ok(state),
                None => Err(FsmError::StateIsEmpty),
            }
        }
    }

    /// Linear scan over the occupied slots in index order: returns the
    /// first slot whose state bears `name`, or `None` when no registered
    /// state does.
    pub fn state_by_name(&self, name: String) -> (r: Option<usize>)
        requires
            self.wf(),
        ensures
            r matches Some(j) ==> self.is_first_slot_named(name@, j),
            r is None ==> !self.has_state_named(name@),
    {
        let mut i: usize = 0;
        while i < self.num_states
            invariant
                self.wf(),
                i <= self.occupied(),
                forall|k: int| 0 <= k < i ==> self.slot_name(k) != name@,
            decreases self.occupied() - i,
        {
            match &self.states[i] {
                Some(state) => {
                    if name == state.name {
                        return Some(i);
                    }
                },
                None => (),
            }
            i = i + 1;
        }
        None
    }

    /// Bounds-checked in-place mutation of the state in slot `index`: the
    /// slot takes `s` and the state it held comes back, so a caller can
    /// adjust a registered state and store it again. Fails with
    /// [`FsmError::StateIndexOutOfBounds`] when `index` is at or beyond
    /// the occupied count, leaving the machine untouched.
    pub fn mut_state(&mut self, index: usize, s: State<H>) -> (r: Result<State<H>, FsmError>)
        requires
            old(self).wf(),
        ensures
            final(self).wf(),
            index < old(self).occupied() ==> (r matches Ok(prev) && Some(prev) == old(self).slot(
                index as int,
            ) && final(self).slot(index as int) == Some(s) && forall|i: int|
                0 <= i < old(self).capacity() && i != index ==> final(self).slot(i) == old(
                    self,
                ).slot(i)),
            index >= old(self).occupied() ==> (r matches Err(e) && e
                == FsmError::StateIndexOutOfBounds && *final(self) == *old(self)),
            final(self).capacity() == old(self).capacity(),
            final(self).occupied() == old(self).occupied(),
            forall|s0: int, d0: int| final(self).cell(s0, d0) == old(self).cell(s0, d0),
            final(self).active() == old(self).active(),
            final(self).initialized() == old(self).initialized(),
            final(self).error_hooks() == old(self).error_hooks(),
            final(self).data_value() == old(self).data_value(),
    {
        if index >= self.num_states {
            Err(FsmError::StateIndexOutOfBounds)
        } else {
            match self.states[index].take() {
                Some(prev) => {
                    self.states[index] = Some(s);
                    Ok(prev)
                },
                None => unreached(),
            }
        }
    }

    /// Bounds-checked read access to the transition at matrix cell
    /// (`src`, `dst`). Fails with
    /// [`FsmError::TransitionIndexOutOfBounds`] when either endpoint is at
    /// or beyond the occupied count, and with
    /// [`FsmError::TransitionIsEmpty`] when the cell is in range but
    /// holds no transition.
    pub fn transition(&self, src: usize, dst: usize) -> (r: Result<&Transition<G>, FsmError>)
        requires
            self.wf(),
        ensures
            src >= self.occupied() || dst >= self.occupied() ==> (r matches Err(e) && e
                == FsmError::TransitionIndexOutOfBounds),
            src < self.occupied() && dst < self.occupied() && self.cell(src as int, dst as int)
                is None ==> (r matches Err(e) && e == FsmError::TransitionIsEmpty),
            src < self.occupied() && dst < self.occupied() && self.cell(src as int, dst as int)
                is Some ==> (r matches Ok(t) && Some(*t) == self.cell(src as int, dst as int)),
    {
        if src >= self.num_states || dst >= self.num_states {
            Err(FsmError::TransitionIndexOutOfBounds)
        } else {
            match &self.transitions[src][dst] {
                Some(transition) => Ok(transition),
                None => Err(FsmError::TransitionIsEmpty),
            }
        }
    }

    /// Read access to slot `src`'s full outgoing row of the transition
    /// matrix, in ascending destination order — the order the tick scans.
    /// Fails with [`FsmError::TransitionIndexOutOfBounds`] when `src` is
    /// at or beyond the occupied count.
    pub fn active_transitions(&self, src: usize) -> (r: Result<
        &[Option<Transition<G>>],
        FsmError,
    >)
        requires
            self.wf(),
        ensures
            src < self.occupied() ==> (r matches Ok(row) && row@.len() == self.capacity() && forall|
                d: int,
            | 0 <= d < self.capacity() ==> row@[d] == self.cell(src as int, d)),
            src >= self.occupied() ==> (r matches Err(e) && e
                == FsmError::TransitionIndexOutOfBounds),
    {
        if src >= self.num_states {
            Err(FsmError::TransitionIndexOutOfBounds)
        } else {
            Ok(self.transitions[src].as_slice())
        }
    }

    /// Builds an empty machine: `capacity` vacant slots, a vacant
    /// `capacity`-by-`capacity` transition matrix, no active slot, the
    /// initialized flag down, no recovery hooks, and `data` moved in.
    pub fn new(data: T, capacity: usize) -> (r: StateMachine<T, H, G, E>)
        ensures
            r.wf(),
            r.capacity() == capacity,
            r.occupied() == 0,
            forall|i: int| 0 <= i < capacity ==> (#[trigger] r.slot(i)) is None,
            forall|s: int, d: int|
                0 <= s < capacity && 0 <= d < capacity ==> (#[trigger] r.cell(s, d)) is None,
            r.active() is None,
            !r.initialized(),
            !r.recovery_installed(),
            r.data_value() == data,
    {
        let mut states: Vec<Option<State<H>>> = Vec::new();
        let mut i: usize = 0;
        while i < capacity
            invariant
                i <= capacity,
                states@.len() == i,
                forall|j: int| 0 <= j < i ==> (#[trigger] states@[j]) is None,
            decreases capacity - i,
        {
            states.push(None);
            i = i + 1;
        }
        let mut transitions: Vec<Vec<Option<Transition<G>>>> = Vec::new();
        let mut s: usize = 0;
        while s < capacity
            invariant
                s <= capacity,
                transitions@.len() == s,
                forall|r0: int|
                    0 <= r0 < s ==> (#[trigger] transitions@[r0])@.len() == capacity,
                forall|r0: int, c0: int|
                    0 <= r0 < s && 0 <= c0 < capacity ==> (#[trigger] transitions@[r0]@[c0])
                        is None,
            decreases capacity - s,
        {
            let mut row: Vec<Option<Transition<G>>> = Vec::new();
            let mut d: usize = 0;
            while d < capacity
                invariant
                    d <= capacity,
                    row@.len() == d,
                    forall|j: int| 0 <= j < d ==> (#[trigger] row@[j]) is None,
                decreases capacity - d,
            {
                row.push(None);
                d = d + 1;
            }
            transitions.push(row);
            s = s + 1;
        }
        StateMachine {
            data,
            states,
            num_states: 0,
            transitions,
            active_state: None,
            active_state_initialized: false,
            error: None,
        }
    }
}

impl<T, H, G, E> StateMachine<T, H, G, E> {
    /// How one tick relates the machine before it to the machine after
    /// it, whatever the user hooks do: with no active slot nothing at all
    /// changes; otherwise the active slot stays put (with the initialized
    /// flag as it was, or raised), moves along a registered transition out
    /// of the old active slot (flag lowered), or — only with a recovery
    /// pair installed — follows a redirect to some occupied slot (flag
    /// lowered). A tick never invents a destination: the machine cannot
    /// land anywhere else.
    pub open spec fn tick_step(pre: Self, post: Self) -> bool {
        match pre.active() {
            None => post == pre,
            Some(i) => {
                ||| (post.active() == Some(i) && post.initialized() == pre.initialized())
                ||| (post.active() == Some(i) && post.initialized())
                ||| (exists|d: usize|
                    d < pre.occupied() && (#[trigger] pre.cell(i as int, d as int)) is Some
                        && post.active() == Some(d) && !post.initialized())
                ||| (pre.recovery_installed() && !post.initialized() && exists|j: usize|
                    post.active() == Some(j) && j < pre.occupied())
            },
        }
    }

    /// What every tick and every recovery dispatch preserves: the
    /// capacity, every slot, every matrix cell and the installed recovery
    /// pair. Only the shared data value, the active slot and the
    /// initialized flag can move.
    pub open spec fn tables_kept(pre: Self, post: Self) -> bool {
        &&& post.capacity() == pre.capacity()
        &&& post.occupied() == pre.occupied()
        &&& forall|i: int|
            #![trigger post.slot(i)]
            #![trigger pre.slot(i)]
            post.slot(i) == pre.slot(i)
        &&& forall|s0: int, d0: int|
            #![trigger post.cell(s0, d0)]
            #![trigger pre.cell(s0, d0)]
            post.cell(s0, d0) == pre.cell(s0, d0)
        &&& post.error_hooks() == pre.error_hooks()
    }

    /// The machine after its active slot was reassigned to `j` and the
    /// initialized flag lowered, with everything else — the data value
    /// included — exactly as before.
    pub open spec fn reassigned_to(pre: Self, post: Self, j: usize) -> bool {
        &&& Self::tables_kept(pre, post)
        &&& post.active() == Some(j)
        &&& !post.initialized()
        &&& post.data_value() == pre.data_value()
    }

    /// The machine after its initialized flag was raised, with everything
    /// else — the data value included — exactly as before.
    pub open spec fn flag_raised(pre: Self, post: Self) -> bool {
        &&& Self::tables_kept(pre, post)
        &&& post.active() == pre.active()
        &&& post.initialized()
        &&& post.data_value() == pre.data_value()
    }

    /// How one recovery dispatch relates the machine before it to the
    /// machine after it, whatever the recovery hooks return: with no pair
    /// installed, exactly nothing happens; with one installed, either the
    /// active slot and the flag are left alone, or a redirect lands the
    /// active slot on some occupied slot with the flag lowered. (Which of
    /// the two, and where a redirect lands, `apply_redirect` pins per
    /// returned destination.)
    pub open spec fn recovery_step(pre: Self, post: Self) -> bool {
        &&& Self::tables_kept(pre, post)
        &&& ((post.active() == pre.active() && post.initialized() == pre.initialized()) || (
        pre.recovery_installed() && !post.initialized() && exists|j: usize|
            post.active() == Some(j) && j < pre.occupied()))
        &&& !pre.recovery_installed() ==> post == pre
    }

    /// Applies the destination a recovery hook returned: no destination
    /// changes nothing; an index below the occupied count reassigns the
    /// active slot there and lowers the flag, an index at or beyond it is
    /// silently ignored; a name some registered state bears reassigns the
    /// active slot to the first slot bearing it and lowers the flag, an
    /// unknown name is silently ignored.
    fn apply_redirect(&mut self, dest: Option<Destination>)
        requires
            old(self).wf(),
        ensures
            final(self).wf(),
            match dest {
                None => *final(self) == *old(self),
                Some(Destination::Index(j)) => if j < old(self).occupied() {
                    Self::reassigned_to(*old(self), *final(self), j)
                } else {
                    *final(self) == *old(self)
                },
                Some(Destination::Name(n)) => if old(self).has_state_named(n@) {
                    exists|j: usize|
                        old(self).is_first_slot_named(n@, j) && Self::reassigned_to(
                            *old(self),
                            *final(self),
                            j,
                        )
                } else {
                    *final(self) == *old(self)
                },
            },
    {
        match dest {
            None => (),
            Some(Destination::Index(j)) => {
                if j < self.num_states {
                    self.active_state = Some(j);
                    self.active_state_initialized = false;
                }
            },
            Some(Destination::Name(n)) => {
                match self.state_by_name(n) {
                    Some(j) => {
                        self.active_state = Some(j);
                        self.active_state_initialized = false;
                    },
                    None => (),
                }
            },
        }
    }
}

impl<T, H, G, E> StateMachine<T, H, G, E> {
    /// Carries `lemma_registration_fills_in_order` up to step `k`: along a
    /// run of registrations the capacity never moves, and the occupied
    /// count grows by one per step until it reaches the capacity and stays
    /// there.
    proof fn lemma_occupied_prefix(
        machines: Seq<Self>,
        added: Seq<State<H>>,
        results: Seq<Result<usize, FsmError>>,
        k: int,
    )
        requires
            machines.len() == results.len() + 1,
            added.len() == results.len(),
            machines[0].occupied() == 0,
            forall|j: int|
                0 <= j < results.len() ==> #[trigger] Self::add_state_step(
                    machines[j],
                    added[j],
                    machines[j + 1],
                    results[j],
                ),
            0 <= k <= results.len(),
        ensures
            machines[k].capacity() == machines[0].capacity(),
            machines[k].occupied() == if k <= machines[0].capacity() {
                k as nat
            } else {
                machines[0].capacity()
            },
        decreases k,
    {
        if k > 0 {
            let j = k - 1;
            Self::lemma_occupied_prefix(machines, added, results, j);
            assert(Self::add_state_step(machines[j], added[j], machines[j + 1], results[j]));
            assert(machines[j + 1] == machines[k]);
        }
    }

    /// Law: from a machine with no occupied slot, consecutive
    /// registrations are accepted in slot order — the k-th receives index
    /// k — until every slot is taken, and each registration after that
    /// fails with [`FsmError::MaxNumberOfStatesExceeded`].
    ///
    /// `machines` is the run of machine values, `added[k]` and
    /// `results[k]` the state handed to and the result returned by the
    /// k-th call, each consecutive pair related as one `add_state` call
    /// relates them.
    pub proof fn lemma_registration_fills_in_order(
        machines: Seq<Self>,
        added: Seq<State<H>>,
        results: Seq<Result<usize, FsmError>>,
    )
        requires
            machines.len() == results.len() + 1,
            added.len() == results.len(),
            machines[0].occupied() == 0,
            forall|j: int|
                0 <= j < results.len() ==> #[trigger] Self::add_state_step(
                    machines[j],
                    added[j],
                    machines[j + 1],
                    results[j],
                ),
        ensures
            forall|k: int|
                0 <= k < results.len() && k < machines[0].capacity() ==> (#[trigger] results[k]
                    matches Ok(idx) && idx == k),
            forall|k: int|
                0 <= k < results.len() && k >= machines[0].capacity() ==> (#[trigger] results[k]
                    matches Err(e) && e == FsmError::MaxNumberOfStatesExceeded),
    {
        assert forall|k: int| 0 <= k < results.len() && k < machines[0].capacity() implies (
        #[trigger] results[k] matches Ok(idx) && idx == k) by {
            Self::lemma_occupied_prefix(machines, added, results, k);
            assert(Self::add_state_step(machines[k], added[k], machines[k + 1], results[k]));
        }
        assert forall|k: int| 0 <= k < results.len() && k >= machines[0].capacity() implies (#
[trigger] results[k] matches Err(e) && e == FsmError::MaxNumberOfStatesExceeded) by {
            Self::lemma_occupied_prefix(machines, added, results, k);
            assert(Self::add_state_step(machines[k], added[k], machines[k + 1], results[k]));
        }
    }
}

impl<T, H: StateHooks<T>, G: TransitionHooks<T>, E: ErrorHooks<T>> StateMachine<T, H, G, E> {
    /// Dispatches a runtime hook failure. With no recovery pair installed
    /// nothing happens at all; with one installed, the first hook runs
    /// with its result ignored, the second runs and the destination it
    /// returns is applied as `apply_redirect` states, per case.
    fn do_error_callback(&mut self, error: FsmError)
        requires
            old(self).wf(),
        ensures
            final(self).wf(),
            Self::recovery_step(*old(self), *final(self)),
    {
        let dest: Option<Destination> = match &self.error {
            Some(pair) => {
                let _ = pair.0.on_error(error, &mut self.data);
                pair.1.on_error(error, &mut self.data)
            },
            None => None,
        };
        self.apply_redirect(dest);
    }

    /// Applies the result of the active state's init hook: on success the
    /// initialized flag rises and the tick may go on; on failure the flag
    /// is left exactly as it was, recovery is dispatched, and the tick is
    /// over.
    fn apply_init_result(&mut self, result: Result<(), FsmError>) -> (proceed: bool)
        requires
            old(self).wf(),
        ensures
            final(self).wf(),
            result is Ok ==> proceed && Self::flag_raised(*old(self), *final(self)),
            result is Err ==> !proceed && Self::recovery_step(*old(self), *final(self)),
    {
        match result {
            Ok(()) => {
                self.active_state_initialized = true;
                true
            },
            Err(e) => {
                self.do_error_callback(e);
                false
            },
        }
    }

    /// Applies the result of the active state's exec hook: on success the
    /// machine is untouched and the tick may go on to the transition scan;
    /// on failure recovery is dispatched and the tick is over, the flag
    /// left up so the next tick retries exec without re-running init.
    fn apply_exec_result(&mut self, result: Result<(), FsmError>) -> (proceed: bool)
        requires
            old(self).wf(),
        ensures
            final(self).wf(),
            result is Ok ==> proceed && *final(self) == *old(self),
            result is Err ==> !proceed && Self::recovery_step(*old(self), *final(self)),
    {
        match result {
            Ok(()) => true,
            Err(e) => {
                self.do_error_callback(e);
                false
            },
        }
    }

    /// Applies the result of a fired transition's completion hook: on
    /// success the active slot moves to the scanned destination `dst` with
    /// the flag lowered; on failure the slot and the flag are left to the
    /// recovery dispatch, which keeps them unless a redirect applies.
    fn apply_transition_result(&mut self, dst: usize, result: Result<(), FsmError>)
        requires
            old(self).wf(),
            dst < old(self).occupied(),
        ensures
            final(self).wf(),
            result is Ok ==> Self::reassigned_to(*old(self), *final(self), dst),
            result is Err ==> Self::recovery_step(*old(self), *final(self)),
    {
        match result {
            Ok(()) => {
                self.active_state = Some(dst);
                self.active_state_initialized = false;
            },
            Err(e) => {
                self.do_error_callback(e);
            },
        }
    }

    /// One tick. A no-op with no active slot set. Otherwise: runs the
    /// active state's init hook if the initialized flag is down and
    /// applies its result (`apply_init_result`: failure ends the tick with
    /// the flag still down, success raises it), runs the exec hook and
    /// applies its result (`apply_exec_result`: failure ends the tick),
    /// then scans the active slot's outgoing transitions in ascending
    /// destination order, and for the first one whose guard passes runs
    /// its completion hook and applies its result
    /// (`apply_transition_result`: the machine moves to the scanned
    /// destination, or on failure stays for recovery to decide), ending
    /// the scan. With no guard passing, the active slot stays put, to
    /// retry its exec hook next tick.
    ///
    /// Hook failures never surface here: the tick has no result, and with
    /// no recovery pair installed a failing step is simply retried on
    /// every later tick.
    pub fn run(&mut self)
        requires
            old(self).wf(),
        ensures
            final(self).wf(),
            Self::tables_kept(*old(self), *final(self)),
            Self::tick_step(*old(self), *final(self)),
            old(self).active() is None ==> *final(self) == *old(self),
    {
        let ghost pre = *self;
        let active_opt = self.active_state;
        if let Some(active_index) = active_opt {
            if !self.active_state_initialized {
                let init_result = match &self.states[active_index] {
                    Some(state) => state.do_init(&mut self.data),
                    None => unreached(),
                };
                if !self.apply_init_result(init_result) {
                    return;
                }
            }
            assert(Self::tables_kept(pre, *self));

            let exec_result = match &self.states[active_index] {
                Some(state) => state.do_exec(&mut self.data),
                None => unreached(),
            };
            assert(Self::tables_kept(pre, *self));
            if !self.apply_exec_result(exec_result) {
                return;
            }

            let cap = self.states.len();
            let mut dst: usize = 0;
            while dst < cap
                invariant
                    pre == *old(self),
                    self.wf(),
                    cap == self.capacity(),
                    Self::tables_kept(pre, *self),
                    self.active() == pre.active(),
                    self.active() == Some(active_index),
                    self.initialized(),
                decreases cap - dst,
            {
                let fired: Option<Result<(), FsmError>> = match &self.transitions[active_index][
                    dst
                ] {
                    Some(transition) => {
                        if transition.do_check(&self.data) {
                            Some(transition.do_done(&mut self.data))
                        } else {
                            None
                        }
                    },
                    None => None,
                };
                match fired {
                    Some(result) => {
                        assert(pre.cell(active_index as int, dst as int) is Some);
                        self.apply_transition_result(dst, result);
                        return;
                    },
                    None => (),
                }
                dst = dst + 1;
            }
        }
    }
}

} // verus!
