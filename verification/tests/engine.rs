//! Tests of the execution engine: initial execution, event resolution,
//! conflict detection, orthogonal regions, completion and lifecycle misuse.

use std::rc::Rc;
use std::str::FromStr;

use uml_state_machine::execution::StateMachineInstance;
use uml_state_machine::{
    Action, ActionEffect, Condition, ErrorKind, GuardExpr, State, StateID, StateKind, StateMachine,
    Transition,
};

fn sid(s: &str) -> StateID {
    StateID::from_str(s).unwrap()
}

fn completion_to(target: &str) -> Transition {
    Transition::new(None, None, Some(sid(target)), false, vec![], vec![])
}

fn guarded(event: u64, target: &str, guard: GuardExpr) -> Transition {
    Transition::new(
        None,
        Some(event),
        Some(sid(target)),
        false,
        vec![Condition::new(guard)],
        vec![],
    )
}

fn active_names(inst: &StateMachineInstance) -> Vec<String> {
    let mut names: Vec<String> = inst.active_states().iter().map(|s| s.to_string()).collect();
    names.sort();
    names
}

#[test]
fn scenario_initial_to_final() {
    let mut m = StateMachine::new(Some("simple".to_string()), sid("init"));
    let mut init = State::new(sid("init"), Some("Start Here".to_string()), StateKind::Initial);
    init.add_transition(completion_to("end"));
    m.add_state(init);
    m.add_state(State::new(sid("end"), Some("End Here".to_string()), StateKind::Final));
    assert!(m.validate().is_ok());

    let mut inst = StateMachineInstance::new(Rc::new(m), vec![]);
    assert!(inst.execute().is_ok());
    assert!(inst.is_done());
    assert_eq!(active_names(&inst), vec!["end".to_string()]);

    let result = inst.post(9);
    assert!(matches!(result, Err(ErrorKind::InstanceIsDone)));
    let result = inst.execute();
    assert!(matches!(result, Err(ErrorKind::InstanceIsDone)));
    assert_eq!(active_names(&inst), vec!["end".to_string()]);
}

#[test]
fn scenario_guarded_winner() {
    let go: u64 = 1;
    let mut m = StateMachine::new(None, sid("init"));
    let mut init = State::new(sid("init"), None, StateKind::Initial);
    init.add_transition(completion_to("s1"));
    m.add_state(init);
    let mut s1 = State::new(sid("s1"), None, StateKind::Atomic);
    s1.add_transition(guarded(go, "finalA", GuardExpr::Always));
    s1.add_transition(guarded(go, "finalB", GuardExpr::Never));
    m.add_state(s1);
    m.add_state(State::new(sid("finalA"), None, StateKind::Final));
    m.add_state(State::new(sid("finalB"), None, StateKind::Final));
    assert!(m.validate().is_ok());

    let mut inst = StateMachineInstance::new(Rc::new(m), vec![]);
    assert!(inst.execute().is_ok());
    assert_eq!(active_names(&inst), vec!["s1".to_string()]);
    assert!(!inst.is_done());

    assert!(inst.post(go).is_ok());
    assert_eq!(active_names(&inst), vec!["finalA".to_string()]);
    assert!(inst.is_done());
}

#[test]
fn scenario_conflicting_transitions() {
    let go: u64 = 1;
    let mut m = StateMachine::new(None, sid("init"));
    let mut init = State::new(sid("init"), None, StateKind::Initial);
    init.add_transition(completion_to("s1"));
    m.add_state(init);
    let mut s1 = State::new(sid("s1"), None, StateKind::Atomic);
    s1.add_transition(guarded(go, "finalA", GuardExpr::Always));
    s1.add_transition(guarded(go, "finalB", GuardExpr::Always));
    m.add_state(s1);
    m.add_state(State::new(sid("finalA"), None, StateKind::Final));
    m.add_state(State::new(sid("finalB"), None, StateKind::Final));
    assert!(m.validate().is_ok());

    let mut inst = StateMachineInstance::new(Rc::new(m), vec![]);
    assert!(inst.execute().is_ok());
    assert_eq!(active_names(&inst), vec!["s1".to_string()]);

    let result = inst.post(go);
    assert!(matches!(result, Err(ErrorKind::MoreThanOneTransition)));
    assert_eq!(active_names(&inst), vec!["s1".to_string()]);
    assert!(inst.is_active());
}

#[test]
fn scenario_orthogonal_regions() {
    let ev_x: u64 = 10;
    let ev_y: u64 = 11;
    let mut m = StateMachine::new(None, sid("init"));
    let mut init = State::new(sid("init"), None, StateKind::Initial);
    init.add_transition(completion_to("p"));
    m.add_state(init);
    m.add_state(State::new(
        sid("p"),
        None,
        StateKind::Orthogonal { child_states: vec![sid("b1"), sid("b2")] },
    ));
    let mut b1 = State::new(sid("b1"), None, StateKind::Atomic);
    b1.add_transition(guarded(ev_x, "final1", GuardExpr::Always));
    m.add_state(b1);
    let mut b2 = State::new(sid("b2"), None, StateKind::Atomic);
    b2.add_transition(guarded(ev_y, "final2", GuardExpr::Always));
    m.add_state(b2);
    m.add_state(State::new(sid("final1"), None, StateKind::Final));
    m.add_state(State::new(sid("final2"), None, StateKind::Final));
    assert!(m.validate().is_ok());

    let mut inst = StateMachineInstance::new(Rc::new(m), vec![]);
    assert!(inst.execute().is_ok());
    assert_eq!(active_names(&inst), vec!["b1".to_string(), "b2".to_string()]);

    assert!(inst.post(ev_x).is_ok());
    assert_eq!(active_names(&inst), vec!["b2".to_string(), "final1".to_string()]);
    assert!(!inst.is_done());

    assert!(inst.post(ev_y).is_ok());
    assert_eq!(active_names(&inst), vec!["final1".to_string(), "final2".to_string()]);
    assert!(inst.is_done());
}

#[test]
fn post_before_execute_is_refused() {
    let mut m = StateMachine::new(None, sid("init"));
    let mut init = State::new(sid("init"), None, StateKind::Initial);
    init.add_transition(completion_to("end"));
    m.add_state(init);
    m.add_state(State::new(sid("end"), None, StateKind::Final));
    assert!(m.validate().is_ok());

    let mut inst = StateMachineInstance::new(Rc::new(m), vec![]);
    let result = inst.post(1);
    assert!(matches!(result, Err(ErrorKind::InstanceIsNotActive)));
    assert!(!inst.is_active());
    assert!(inst.active_states().is_empty());
}

#[test]
fn unmatched_event_is_ignored() {
    let go: u64 = 1;
    let other: u64 = 2;
    let mut m = StateMachine::new(None, sid("init"));
    let mut init = State::new(sid("init"), None, StateKind::Initial);
    init.add_transition(completion_to("s1"));
    m.add_state(init);
    let mut s1 = State::new(sid("s1"), None, StateKind::Atomic);
    s1.add_transition(guarded(go, "end", GuardExpr::Always));
    m.add_state(s1);
    m.add_state(State::new(sid("end"), None, StateKind::Final));
    assert!(m.validate().is_ok());

    let mut inst = StateMachineInstance::new(Rc::new(m), vec![]);
    assert!(inst.execute().is_ok());
    assert!(inst.post(other).is_ok());
    assert_eq!(active_names(&inst), vec!["s1".to_string()]);
    assert!(inst.is_active());
}

#[test]
fn composite_entry_reaches_initial_child() {
    let mut m = StateMachine::new(None, sid("init"));
    let mut init = State::new(sid("init"), None, StateKind::Initial);
    init.add_transition(completion_to("outer"));
    m.add_state(init);
    m.add_state(State::new(
        sid("outer"),
        None,
        StateKind::Composite { child_states: vec![sid("inner_init"), sid("inner")], initial: sid("inner_init") },
    ));
    let mut inner_init = State::new(sid("inner_init"), None, StateKind::Initial);
    inner_init.add_transition(completion_to("inner"));
    m.add_state(inner_init);
    m.add_state(State::new(sid("inner"), None, StateKind::Atomic));
    m.add_state(State::new(sid("end"), None, StateKind::Final));
    assert!(m.validate().is_ok());

    let mut inst = StateMachineInstance::new(Rc::new(m), vec![]);
    assert!(inst.execute().is_ok());
    assert_eq!(active_names(&inst), vec!["inner".to_string()]);
    assert!(inst.is_active());
}

#[test]
fn entry_actions_mutate_context_in_order() {
    let mut m = StateMachine::new(None, sid("init"));
    m.add_init_action(Action::new(ActionEffect::SetSlot { slot: 0, value: 5 }));
    m.add_done_action(Action::new(ActionEffect::AddSlot { slot: 2, value: 1 }));
    let mut init = State::new(sid("init"), None, StateKind::Initial);
    init.add_transition(completion_to("end"));
    init.add_entry_action(Action::new(ActionEffect::AddSlot { slot: 0, value: 10 }));
    init.add_body_action(Action::new(ActionEffect::SetSlot { slot: 1, value: 7 }));
    init.add_exit_action(Action::new(ActionEffect::AddSlot { slot: 1, value: 1 }));
    m.add_state(init);
    let mut end = State::new(sid("end"), None, StateKind::Final);
    end.add_entry_action(Action::new(ActionEffect::AddSlot { slot: 0, value: 100 }));
    m.add_state(end);
    assert!(m.validate().is_ok());

    let mut inst = StateMachineInstance::new(Rc::new(m), vec![0, 0, 0]);
    assert!(inst.execute().is_ok());
    assert!(inst.is_done());
    // init actions set slot 0 to 5; entry adds 10; body sets slot 1 to 7;
    // exit adds 1 to slot 1; entering the final state adds 100 to slot 0;
    // the done actions add 1 to slot 2.
    assert_eq!(inst.context().as_slice(), &[115, 8, 1]);
}

#[test]
fn aborting_action_forces_error() {
    let mut m = StateMachine::new(None, sid("init"));
    let mut init = State::new(sid("init"), None, StateKind::Initial);
    init.add_transition(completion_to("end"));
    init.add_entry_action(Action::new(ActionEffect::Abort));
    m.add_state(init);
    m.add_state(State::new(sid("end"), None, StateKind::Final));
    assert!(m.validate().is_ok());

    let mut inst = StateMachineInstance::new(Rc::new(m), vec![]);
    let result = inst.execute();
    assert!(matches!(result, Err(ErrorKind::ActionPanicked)));
    assert!(inst.is_in_error());
    assert!(!inst.is_active());
    let result = inst.post(1);
    assert!(matches!(result, Err(ErrorKind::InstanceIsDone)));
    let result = inst.execute();
    assert!(matches!(result, Err(ErrorKind::InstanceIsDone)));
}

#[test]
fn accepts_reports_active_events() {
    let go: u64 = 4;
    let halt: u64 = 5;
    let mut m = StateMachine::new(None, sid("init"));
    let mut init = State::new(sid("init"), None, StateKind::Initial);
    init.add_transition(completion_to("s1"));
    m.add_state(init);
    let mut s1 = State::new(sid("s1"), None, StateKind::Atomic);
    s1.add_transition(guarded(go, "end", GuardExpr::Always));
    s1.add_transition(guarded(halt, "end", GuardExpr::Never));
    m.add_state(s1);
    m.add_state(State::new(sid("end"), None, StateKind::Final));
    assert!(m.validate().is_ok());

    let chart = Rc::new(m);
    let mut machine_events = chart.accepts();
    machine_events.sort();
    assert_eq!(machine_events, vec![go, halt]);

    let mut inst = StateMachineInstance::new(chart, vec![]);
    assert!(inst.accepts().is_empty());
    assert!(inst.execute().is_ok());
    let mut events = inst.accepts();
    events.sort();
    assert_eq!(events, vec![go, halt]);
}

#[test]
fn execute_twice_is_refused() {
    let go: u64 = 1;
    let mut m = StateMachine::new(None, sid("init"));
    let mut init = State::new(sid("init"), None, StateKind::Initial);
    init.add_transition(completion_to("s1"));
    m.add_state(init);
    let mut s1 = State::new(sid("s1"), None, StateKind::Atomic);
    s1.add_transition(guarded(go, "end", GuardExpr::Always));
    m.add_state(s1);
    m.add_state(State::new(sid("end"), None, StateKind::Final));
    assert!(m.validate().is_ok());

    let mut inst = StateMachineInstance::new(Rc::new(m), vec![]);
    assert!(inst.execute().is_ok());
    let result = inst.execute();
    assert!(matches!(result, Err(ErrorKind::InstanceIsActive)));
    assert_eq!(active_names(&inst), vec!["s1".to_string()]);
}

#[test]
fn internal_transition_skips_exit_and_entry() {
    let tick: u64 = 6;
    let mut m = StateMachine::new(None, sid("init"));
    let mut init = State::new(sid("init"), None, StateKind::Initial);
    init.add_transition(completion_to("s1"));
    m.add_state(init);
    let mut s1 = State::new(sid("s1"), None, StateKind::Atomic);
    s1.add_exit_action(Action::new(ActionEffect::AddSlot { slot: 0, value: 1 }));
    // an internal self-loop: the transition action runs, the exit and
    // entry boundary is never crossed
    s1.add_transition(Transition::new(
        None,
        Some(tick),
        None,
        true,
        vec![],
        vec![Action::new(ActionEffect::AddSlot { slot: 1, value: 1 })],
    ));
    s1.add_transition(guarded(7, "end", GuardExpr::Always));
    m.add_state(s1);
    m.add_state(State::new(sid("end"), None, StateKind::Final));
    assert!(m.validate().is_ok());

    let mut inst = StateMachineInstance::new(Rc::new(m), vec![0, 0]);
    assert!(inst.execute().is_ok());
    assert!(inst.post(tick).is_ok());
    assert!(inst.post(tick).is_ok());
    assert_eq!(active_names(&inst), vec!["s1".to_string()]);
    // the transition action ran twice; the exit actions never ran
    assert_eq!(inst.context().as_slice(), &[0, 2]);
}

#[test]
fn history_entry_restores_remembered_states() {
    let mut m = StateMachine::new(None, sid("init"));
    let mut init = State::new(sid("init"), None, StateKind::Initial);
    init.add_transition(completion_to("hist"));
    m.add_state(init);
    // the remembered states come from the model: entering the history
    // state enters them instead of the history state itself
    m.add_state(State::new(
        sid("hist"),
        None,
        StateKind::History { deep: false, state: vec![sid("a"), sid("b")] },
    ));
    m.add_state(State::new(sid("a"), None, StateKind::Atomic));
    m.add_state(State::new(sid("b"), None, StateKind::Atomic));
    m.add_state(State::new(sid("end"), None, StateKind::Final));
    assert!(m.validate().is_ok());

    let mut inst = StateMachineInstance::new(Rc::new(m), vec![]);
    assert!(inst.execute().is_ok());
    assert_eq!(active_names(&inst), vec!["a".to_string(), "b".to_string()]);
}

#[test]
fn completion_cycle_is_stopped() {
    // two states chained by always-enabled completion transitions in a
    // cycle: the entry chain cannot terminate, so the engine forces the
    // error lifecycle instead of looping forever
    let mut m = StateMachine::new(None, sid("init"));
    let mut init = State::new(sid("init"), None, StateKind::Initial);
    init.add_transition(completion_to("a"));
    m.add_state(init);
    let mut a = State::new(sid("a"), None, StateKind::Atomic);
    a.add_transition(completion_to("b"));
    m.add_state(a);
    let mut b = State::new(sid("b"), None, StateKind::Atomic);
    b.add_transition(completion_to("a"));
    m.add_state(b);
    m.add_state(State::new(sid("end"), None, StateKind::Final));
    assert!(m.validate().is_ok());

    let mut inst = StateMachineInstance::new(Rc::new(m), vec![]);
    let result = inst.execute();
    assert!(matches!(result, Err(ErrorKind::ActionPanicked)));
    assert!(inst.is_in_error());
}

#[test]
fn exit_actions_run_when_any_candidate_is_external() {
    let go: u64 = 8;
    let mut m = StateMachine::new(None, sid("init"));
    let mut init = State::new(sid("init"), None, StateKind::Initial);
    init.add_transition(completion_to("s1"));
    m.add_state(init);
    let mut s1 = State::new(sid("s1"), None, StateKind::Atomic);
    s1.add_exit_action(Action::new(ActionEffect::AddSlot { slot: 0, value: 1 }));
    // the internal winner still crosses the boundary because an external
    // sibling candidate matches the same event
    s1.add_transition(Transition::new(
        None,
        Some(go),
        None,
        true,
        vec![Condition::new(GuardExpr::Always)],
        vec![],
    ));
    s1.add_transition(guarded(go, "end", GuardExpr::Never));
    m.add_state(s1);
    m.add_state(State::new(sid("end"), None, StateKind::Final));
    assert!(m.validate().is_ok());

    let mut inst = StateMachineInstance::new(Rc::new(m), vec![0]);
    assert!(inst.execute().is_ok());
    assert!(inst.post(go).is_ok());
    assert_eq!(inst.context().as_slice(), &[1]);
    assert_eq!(active_names(&inst), vec!["s1".to_string()]);
}

#[test]
fn chart_is_shared_between_instances() {
    let mut m = StateMachine::new(Some("shared".to_string()), sid("init"));
    let mut init = State::new(sid("init"), None, StateKind::Initial);
    init.add_transition(completion_to("end"));
    m.add_state(init);
    m.add_state(State::new(sid("end"), None, StateKind::Final));
    assert!(m.validate().is_ok());

    let chart = Rc::new(m);
    let mut first = StateMachineInstance::new(chart.clone(), vec![]);
    let mut second = StateMachineInstance::new(chart, vec![]);
    assert!(first.execute().is_ok());
    assert!(first.is_done());
    // the second instance is untouched by the first one's progress
    assert!(!second.is_done());
    assert!(second.execute().is_ok());
    assert!(second.is_done());
    assert_eq!(first.chart().label().as_deref(), Some("shared"));
}

#[test]
fn regions_meeting_in_one_state_activate_it_once() {
    let ev: u64 = 12;
    let mut m = StateMachine::new(None, sid("init"));
    let mut init = State::new(sid("init"), None, StateKind::Initial);
    init.add_transition(completion_to("p"));
    m.add_state(init);
    m.add_state(State::new(
        sid("p"),
        None,
        StateKind::Orthogonal { child_states: vec![sid("b1"), sid("b2")] },
    ));
    let mut b1 = State::new(sid("b1"), None, StateKind::Atomic);
    b1.add_transition(guarded(ev, "meet", GuardExpr::Always));
    m.add_state(b1);
    let mut b2 = State::new(sid("b2"), None, StateKind::Atomic);
    b2.add_transition(guarded(ev, "meet", GuardExpr::Always));
    m.add_state(b2);
    m.add_state(State::new(sid("meet"), None, StateKind::Final));
    assert!(m.validate().is_ok());

    let mut inst = StateMachineInstance::new(Rc::new(m), vec![]);
    assert!(inst.execute().is_ok());
    assert!(inst.post(ev).is_ok());
    // both regions reach the same final state; the configuration is a set,
    // so it holds that state once and the machine is done
    assert_eq!(active_names(&inst), vec!["meet".to_string()]);
    assert!(inst.is_done());
}
