//! Tests of the structural validator: each invariant is violated by a
//! minimal counter-model and yields its own error kind.

use std::str::FromStr;

use uml_state_machine::{
    ErrorKind, State, StateID, StateKind, StateMachine, Transition,
};

fn sid(s: &str) -> StateID {
    StateID::from_str(s).unwrap()
}

fn completion_to(target: &str) -> Transition {
    Transition::new(None, None, Some(sid(target)), false, vec![], vec![])
}

/// A machine with one initial state (with a completion transition to the
/// final state) and one final state: the smallest valid model.
fn minimal_valid() -> StateMachine {
    let mut m = StateMachine::new(None, sid("init"));
    let mut init = State::new(sid("init"), None, StateKind::Initial);
    init.add_transition(completion_to("end"));
    m.add_state(init);
    m.add_state(State::new(sid("end"), None, StateKind::Final));
    m
}

#[test]
fn minimal_model_is_valid() {
    assert!(minimal_valid().validate().is_ok());
}

#[test]
fn test_invalid_no_states() {
    let chart = StateMachine::new(None, StateID::invalid());
    let result = chart.validate();
    assert!(result.is_err());
    match result.err().unwrap() {
        ErrorKind::ChartStatesEmpty => println!("error-ed as expected"),
        _ => panic!("expecting ErrorKind::ChartStatesEmpty"),
    }
}

#[test]
fn test_invalid_no_initial_state() {
    let mut chart = StateMachine::new(None, StateID::invalid());
    chart.add_state(State::new(sid("a-state"), None, StateKind::Final));
    let result = chart.validate();
    assert!(result.is_err());
    match result.err().unwrap() {
        ErrorKind::ChartInvalidInitialStateName => println!("error-ed as expected"),
        _ => panic!("expecting ErrorKind::ChartInvalidInitialStateName"),
    }
}

#[test]
fn test_invalid_wrong_initial_state_type() {
    let mut chart = StateMachine::new(None, sid("a-state"));
    chart.add_state(State::new(sid("a-state"), None, StateKind::Final));
    let result = chart.validate();
    assert!(result.is_err());
    match result.err().unwrap() {
        ErrorKind::ChartInvalidInitialStateKind => println!("error-ed as expected"),
        _ => panic!("expecting ErrorKind::ChartInvalidInitialStateKind"),
    }
}

#[test]
fn test_invalid_wrong_initial_state_name() {
    let mut chart = StateMachine::new(None, sid("another-state"));
    chart.add_state(State::new(sid("a-state"), None, StateKind::Final));
    let result = chart.validate();
    assert!(result.is_err());
    match result.err().unwrap() {
        ErrorKind::ChartInvalidInitialStateName => println!("error-ed as expected"),
        _ => panic!("expecting ErrorKind::ChartInvalidInitialStateName"),
    }
}

#[test]
fn test_invalid_no_final_state() {
    let mut chart = StateMachine::new(None, sid("a-state"));
    chart.add_state(State::new(sid("a-state"), None, StateKind::Initial));
    let result = chart.validate();
    assert!(result.is_err());
    match result.err().unwrap() {
        ErrorKind::ChartNoFinalState => println!("error-ed as expected"),
        _ => panic!("expecting ErrorKind::ChartNoFinalState"),
    }
}

#[test]
fn composite_with_no_children_is_rejected() {
    let mut chart = minimal_valid();
    chart.add_state(State::new(
        sid("outer"),
        None,
        StateKind::Composite { child_states: vec![], initial: sid("init") },
    ));
    assert_eq!(chart.validate(), Err(ErrorKind::StateChildStatesEmpty));
}

#[test]
fn orthogonal_with_no_children_is_rejected() {
    let mut chart = minimal_valid();
    chart.add_state(State::new(sid("par"), None, StateKind::Orthogonal { child_states: vec![] }));
    assert_eq!(chart.validate(), Err(ErrorKind::StateChildStatesEmpty));
}

#[test]
fn composite_with_missing_initial_child_is_rejected() {
    let mut chart = minimal_valid();
    chart.add_state(State::new(
        sid("outer"),
        None,
        StateKind::Composite { child_states: vec![sid("end")], initial: sid("nowhere") },
    ));
    assert_eq!(chart.validate(), Err(ErrorKind::StateInitialState));
}

#[test]
fn composite_with_non_initial_child_is_rejected() {
    let mut chart = minimal_valid();
    chart.add_state(State::new(
        sid("outer"),
        None,
        StateKind::Composite { child_states: vec![sid("end")], initial: sid("end") },
    ));
    assert_eq!(chart.validate(), Err(ErrorKind::StateInitialState));
}

#[test]
fn final_state_with_transitions_is_rejected() {
    let mut chart = minimal_valid();
    let mut end = State::new(sid("end"), None, StateKind::Final);
    end.add_transition(completion_to("init"));
    chart.add_state(end);
    assert_eq!(chart.validate(), Err(ErrorKind::FinalStateTransitions));
}

#[test]
fn empty_transition_is_rejected() {
    let mut chart = minimal_valid();
    let mut stray = State::new(sid("stray"), None, StateKind::Atomic);
    stray.add_transition(Transition::new(None, None, None, false, vec![], vec![]));
    chart.add_state(stray);
    assert_eq!(chart.validate(), Err(ErrorKind::TransitionTrigger));
}

#[test]
fn transition_to_missing_target_is_rejected() {
    let mut chart = minimal_valid();
    let mut stray = State::new(sid("stray"), None, StateKind::Atomic);
    stray.add_transition(completion_to("nowhere"));
    chart.add_state(stray);
    assert_eq!(chart.validate(), Err(ErrorKind::TransitionTargetState));
}

#[test]
fn add_state_replaces_by_identifier() {
    let mut chart = StateMachine::new(None, sid("init"));
    chart.add_state(State::new(sid("init"), None, StateKind::Final));
    chart.add_state(State::new(sid("init"), None, StateKind::Initial));
    assert_eq!(chart.state_count(), 1);
    // the replacement holds the new kind: the initial pointer now names an
    // initial state, so only the missing final state is reported
    assert_eq!(chart.validate(), Err(ErrorKind::ChartNoFinalState));
}

#[test]
fn error_kinds_describe_themselves() {
    assert_eq!(
        ErrorKind::ChartStatesEmpty.description(),
        "states may not be empty"
    );
    assert_eq!(
        ErrorKind::MoreThanOneTransition.description(),
        "more than one transition is active for an active state"
    );
    assert!(!ErrorKind::ActionPanicked.description().is_empty());
}
