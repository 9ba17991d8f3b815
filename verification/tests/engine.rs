// Registration and lookup behaviour of the machine, with no ticking: these
// tests never call run(), so the hook type parameters stay inert.

use call_fsm::FsmError;
use call_fsm::State;
use call_fsm::StateMachine;
use call_fsm::Transition;

type M = StateMachine<u8, u8, u8, u8>;

fn named_state(name: &str) -> State<u8> {
    State::new(name.to_string(), 0u8)
}

fn named_transition(name: &str, src: usize, dst: usize) -> Transition<u8> {
    Transition::new(name.to_string(), src, dst, 0u8)
}

#[test]
fn add_state_fills_slots_in_order_then_fails() {
    let mut m: M = StateMachine::new(0u8, 3);
    assert_eq!(m.add_state(named_state("a")), Ok(0));
    assert_eq!(m.add_state(named_state("b")), Ok(1));
    assert_eq!(m.add_state(named_state("c")), Ok(2));
    assert_eq!(
        m.add_state(named_state("d")),
        Err(FsmError::MaxNumberOfStatesExceeded)
    );
    // and again: a refused registration changes nothing
    assert_eq!(
        m.add_state(named_state("e")),
        Err(FsmError::MaxNumberOfStatesExceeded)
    );
}

#[test]
fn zero_capacity_machine_accepts_no_state() {
    let mut m: M = StateMachine::new(0u8, 0);
    assert_eq!(
        m.add_state(named_state("a")),
        Err(FsmError::MaxNumberOfStatesExceeded)
    );
}

#[test]
fn self_transition_is_rejected_for_every_valid_index() {
    let mut m: M = StateMachine::new(0u8, 3);
    for name in ["a", "b", "c"] {
        m.add_state(named_state(name)).unwrap();
    }
    // register some prior contents first
    m.add_transition(named_transition("ab", 0, 1), 0, 1).unwrap();
    m.add_transition(named_transition("bc", 1, 2), 1, 2).unwrap();
    for i in 0..3 {
        assert_eq!(
            m.add_transition(named_transition("self", i, i), i, i),
            Err(FsmError::AddTransitionSrcDstStatesEqual)
        );
    }
}

#[test]
fn add_transition_checks_bounds_against_occupied_count() {
    let mut m: M = StateMachine::new(0u8, 4);
    m.add_state(named_state("a")).unwrap();
    m.add_state(named_state("b")).unwrap();
    // 2 occupied of capacity 4: index 2 is out of bounds already
    assert_eq!(
        m.add_transition(named_transition("t", 0, 2), 0, 2),
        Err(FsmError::TransitionIndexOutOfBounds)
    );
    assert_eq!(
        m.add_transition(named_transition("t", 2, 0), 2, 0),
        Err(FsmError::TransitionIndexOutOfBounds)
    );
    assert_eq!(m.add_transition(named_transition("t", 1, 0), 1, 0), Ok(()));
}

#[test]
fn state_lookup_bounds_follow_occupied_count() {
    let mut m: M = StateMachine::new(0u8, 3);
    m.add_state(named_state("a")).unwrap();
    m.add_state(named_state("b")).unwrap();
    assert_eq!(m.state(0).unwrap().name, "a");
    assert_eq!(m.state(1).unwrap().name, "b");
    // in-capacity but beyond the occupied count
    assert_eq!(m.state(2).err(), Some(FsmError::StateIndexOutOfBounds));
    assert_eq!(m.state(7).err(), Some(FsmError::StateIndexOutOfBounds));
}

#[test]
fn transition_lookup_distinguishes_empty_from_out_of_bounds() {
    let mut m: M = StateMachine::new(0u8, 3);
    for name in ["a", "b", "c"] {
        m.add_state(named_state(name)).unwrap();
    }
    m.add_transition(named_transition("ab", 0, 1), 0, 1).unwrap();
    assert_eq!(m.transition(0, 1).unwrap().name, "ab");
    // in range, never registered
    assert_eq!(m.transition(1, 0).err(), Some(FsmError::TransitionIsEmpty));
    assert_eq!(m.transition(2, 1).err(), Some(FsmError::TransitionIsEmpty));
    // out of range
    assert_eq!(
        m.transition(0, 3).err(),
        Some(FsmError::TransitionIndexOutOfBounds)
    );
    assert_eq!(
        m.transition(3, 0).err(),
        Some(FsmError::TransitionIndexOutOfBounds)
    );
}

#[test]
fn add_transition_overwrites_prior_cell() {
    let mut m: M = StateMachine::new(0u8, 2);
    m.add_state(named_state("a")).unwrap();
    m.add_state(named_state("b")).unwrap();
    m.add_transition(named_transition("first", 0, 1), 0, 1).unwrap();
    m.add_transition(named_transition("second", 0, 1), 0, 1).unwrap();
    assert_eq!(m.transition(0, 1).unwrap().name, "second");
}

#[test]
fn state_by_name_returns_first_match_in_index_order() {
    let mut m: M = StateMachine::new(0u8, 4);
    m.add_state(named_state("a")).unwrap();
    m.add_state(named_state("b")).unwrap();
    m.add_state(named_state("a")).unwrap();
    assert_eq!(m.state_by_name("a".to_string()), Some(0));
    assert_eq!(m.state_by_name("b".to_string()), Some(1));
    assert_eq!(m.state_by_name("missing".to_string()), None);
}

#[test]
fn set_active_state_validates_the_index() {
    let mut m: M = StateMachine::new(0u8, 3);
    m.add_state(named_state("a")).unwrap();
    m.add_state(named_state("b")).unwrap();
    assert_eq!(m.active_state_index(), None);
    assert_eq!(
        m.set_active_state(2),
        Err(FsmError::StateIndexOutOfBounds)
    );
    assert_eq!(m.active_state_index(), None);
    assert_eq!(m.set_active_state(1), Ok(()));
    assert_eq!(m.active_state_index(), Some(1));
    assert!(!m.is_active_state_initialized());
}

#[test]
fn mut_state_swaps_the_stored_state() {
    let mut m: M = StateMachine::new(0u8, 2);
    m.add_state(named_state("old")).unwrap();
    let prev = m.mut_state(0, named_state("new")).unwrap();
    assert_eq!(prev.name, "old");
    assert_eq!(m.state(0).unwrap().name, "new");
    assert_eq!(
        m.mut_state(1, named_state("x")).err(),
        Some(FsmError::StateIndexOutOfBounds)
    );
}

#[test]
fn active_transitions_returns_the_full_outgoing_row() {
    let mut m: M = StateMachine::new(0u8, 3);
    for name in ["a", "b", "c"] {
        m.add_state(named_state(name)).unwrap();
    }
    m.add_transition(named_transition("ab", 0, 1), 0, 1).unwrap();
    m.add_transition(named_transition("ac", 0, 2), 0, 2).unwrap();
    let row = m.active_transitions(0).unwrap();
    assert_eq!(row.len(), 3);
    assert!(row[0].is_none());
    assert_eq!(row[1].as_ref().unwrap().name, "ab");
    assert_eq!(row[2].as_ref().unwrap().name, "ac");
    assert!(m.active_transitions(3).is_err());
    assert_eq!(
        m.active_transitions(3).err(),
        Some(FsmError::TransitionIndexOutOfBounds)
    );
}

#[test]
fn state_and_transition_expose_their_parts() {
    let st = State::new("s".to_string(), 9u8);
    assert_eq!(st.name, "s");
    assert_eq!(st.hooks, 9u8);
    let tr = Transition::new("t".to_string(), 1, 2, 7u8);
    assert_eq!(tr.name, "t");
    assert_eq!(tr.src, 1);
    assert_eq!(tr.dst, 2);
    assert_eq!(tr.hooks, 7u8);
}
