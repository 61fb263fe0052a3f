//! Tests of the fluent construction API: a machine assembled by the
//! builders validates and executes.

use uml_state_machine::definition::builder::{StateBuilder, StateMachineBuilder, TransitionBuilder};
use uml_state_machine::execution::StateMachineInstance;
use uml_state_machine::ErrorKind;

#[test]
fn test_simple() {
    let simple = StateMachineBuilder::new()
        .labeled("simple")
        .state(
            StateBuilder::initial()
                .labeled("Start Here")
                .transition(TransitionBuilder::new().to("end")),
        )
        .state(StateBuilder::final_with_id("end").labeled("End Here"))
        .build();

    let valid = simple.validate();
    println!("{:#?}", valid);
    assert!(valid.is_ok());

    let mut instance = StateMachineInstance::new(simple, vec![]);

    let result = instance.post(1);
    assert!(result.is_err());
    match result.err().unwrap() {
        ErrorKind::InstanceIsNotActive => println!("error-ed as expected"),
        _ => panic!("expecting ErrorKind::InstanceIsNotActive"),
    }

    let result = instance.execute();
    println!("{:#?}", result);
    assert!(result.is_ok());
    assert!(instance.is_done());

    let result = instance.execute();
    assert!(result.is_err());
    match result.err().unwrap() {
        ErrorKind::InstanceIsDone => println!("error-ed as expected"),
        _ => panic!("expecting ErrorKind::InstanceIsDone"),
    }
}

#[test]
fn builder_back_to_self_targets_the_state() {
    let go: u64 = 3;
    let machine = StateMachineBuilder::new()
        .state(
            StateBuilder::initial()
                .transition(TransitionBuilder::new().to("loopy")),
        )
        .state(
            StateBuilder::atomic_with_id("loopy")
                .transition(TransitionBuilder::new().on_event(go).back_to_self())
                .transition(TransitionBuilder::new().on_event(4).to("end")),
        )
        .state(StateBuilder::final_with_id("end"))
        .build();
    assert!(machine.validate().is_ok());

    let mut instance = StateMachineInstance::new(machine, vec![]);
    assert!(instance.execute().is_ok());
    assert!(instance.post(go).is_ok());
    assert!(instance.is_active());
    let names: Vec<String> = instance.active_states().iter().map(|s| s.to_string()).collect();
    assert_eq!(names, vec!["loopy".to_string()]);
    assert!(instance.post(4).is_ok());
    assert!(instance.is_done());
}

#[test]
fn builder_children_become_table_entries() {
    let machine = StateMachineBuilder::new()
        .state(
            StateBuilder::initial()
                .transition(TransitionBuilder::new().to("outer")),
        )
        .state(
            StateBuilder::compound_with_id("outer")
                .child(
                    StateBuilder::initial_with_id("outer-init")
                        .transition(TransitionBuilder::new().to("leaf")),
                )
                .child(StateBuilder::atomic_with_id("leaf"))
                .with_initial_child(
                    uml_state_machine::StateID::new("outer-init").unwrap(),
                ),
        )
        .state(StateBuilder::final_with_id("end"))
        .build();
    assert!(machine.validate().is_ok());

    let mut instance = StateMachineInstance::new(machine, vec![]);
    assert!(instance.execute().is_ok());
    let names: Vec<String> = instance.active_states().iter().map(|s| s.to_string()).collect();
    assert_eq!(names, vec!["leaf".to_string()]);
}

#[test]
fn builder_random_ids_carry_the_state_prefix() {
    let machine = StateMachineBuilder::new()
        .state(
            StateBuilder::initial()
                .transition(TransitionBuilder::new().to("end")),
        )
        .state(StateBuilder::final_with_id("end"))
        .build();
    assert!(machine.validate().is_ok());
    // the initial marker got a random identifier; the machine's initial
    // pointer shows it was drawn under the state prefix
    let initial = machine.initial_state_id().to_string();
    assert!(initial.starts_with("state::"));
    assert_eq!(initial.len(), "state".len() + 2 + 22);
}
