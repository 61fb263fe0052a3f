//! Tests of the metamodel: region-owned construction, lookup, the visitor
//! traversal and the PlantUML writer.

use uml_state_machine::definition::id::ID;
use uml_state_machine::definition::types::{
    HasRegions, Identified, Labeled, PseudoStateKind, Region, StateMachine, Validate,
};
use uml_state_machine::format::plant_uml::WritePlantUml;
use uml_state_machine::format::Stringify;

#[test]
fn impls_test_simple() {
    let mut simple: StateMachine = StateMachine::default();
    {
        let region: &mut Region = simple.region_mut(0).unwrap();
        let initial_id = region.new_initial_state();
        let state_id = region.new_simple_state();
        let final_id = region.new_final_state();

        region.new_transition(initial_id, state_id.clone());
        region.new_transition(state_id, final_id);
    }

    assert!(simple.validate().is_ok());

    let writer = WritePlantUml::default();
    let string = writer.stringify(&simple);
    assert!(string.is_ok());
    println!("{}", string.unwrap());
}

#[test]
fn plant_uml_frames_the_diagram() {
    let mut simple: StateMachine = StateMachine::labeled("demo");
    {
        let region: &mut Region = simple.region_mut(0).unwrap();
        let initial_id = region.new_initial_state();
        let final_id = region.new_final_state();
        region.new_transition(initial_id, final_id);
    }
    let writer = WritePlantUml::new();
    let text = writer.stringify(&simple).unwrap();
    assert!(text.starts_with("@startuml\n"));
    assert!(text.ends_with("@enduml\n"));
    assert!(text.contains("title demo"));
    assert!(text.contains("[*] --> [*]"));
}

#[test]
fn lookup_finds_vertices_by_region() {
    let mut simple: StateMachine = StateMachine::default();
    let (region_id, state_id) = {
        let region: &mut Region = simple.region_mut(0).unwrap();
        let state_id = region.new_simple_state();
        (region.id().clone(), state_id)
    };
    let found = simple.find_vertex(&region_id, &state_id);
    assert!(found.is_some());
    assert_eq!(found.unwrap().id().to_string(), state_id.to_string());
    let missing = simple.find_vertex(&region_id, &ID::new("nowhere").unwrap());
    assert!(missing.is_none());

    let pairs = simple.index_references();
    assert_eq!(pairs.len(), 1);
    assert_eq!(pairs[0].0.to_string(), region_id.to_string());
    assert_eq!(pairs[0].1.to_string(), state_id.to_string());
}

#[test]
fn machine_lookup_knows_only_itself() {
    let simple: StateMachine = StateMachine::default();
    let own = simple.id().clone();
    assert!(simple.find_machine(&own).is_some());
    assert!(simple.find_machine(&ID::new("other").unwrap()).is_none());
}

#[test]
fn pseudo_state_kinds_are_reported() {
    let mut simple: StateMachine = StateMachine::default();
    {
        let region: &mut Region = simple.region_mut(0).unwrap();
        let _ = region.new_initial_state();
        let _ = region.new_deep_history_state();
        let _ = region.new_shallow_history_state();
        let _ = region.new_join();
        let _ = region.new_fork();
        let _ = region.new_junction();
        let _ = region.new_choice_state();
        let _ = region.new_entry_point();
        let _ = region.new_exit_point();
        let _ = region.new_terminate_state();
    }
    let region = simple.default_region().unwrap();
    let vertices = region.vertices();
    assert_eq!(vertices.len(), 10);
    let kinds: Vec<PseudoStateKind> =
        vertices.iter().map(|v| v.as_pseudo_state().unwrap().kind()).collect();
    assert_eq!(
        kinds,
        vec![
            PseudoStateKind::Initial,
            PseudoStateKind::DeepHistory,
            PseudoStateKind::ShallowHistory,
            PseudoStateKind::Join,
            PseudoStateKind::Fork,
            PseudoStateKind::Junction,
            PseudoStateKind::Choice,
            PseudoStateKind::EntryPoint,
            PseudoStateKind::ExitPoint,
            PseudoStateKind::Terminate,
        ]
    );
    assert!(vertices[0].as_pseudo_state().unwrap().is_initial());
    assert!(vertices[3].as_pseudo_state().unwrap().is_join());
    assert!(!vertices[3].as_pseudo_state().unwrap().is_fork());
}

#[test]
fn labels_can_be_set_and_cleared() {
    let mut simple: StateMachine = StateMachine::labeled("first");
    assert_eq!(simple.label().as_deref(), Some("first"));
    simple.set_label("second");
    assert_eq!(simple.label().as_deref(), Some("second"));
    simple.unset_label();
    assert!(simple.label().is_none());
}

#[test]
fn states_report_their_shape() {
    let mut simple: StateMachine = StateMachine::default();
    {
        let region: &mut Region = simple.region_mut(0).unwrap();
        let _ = region.new_simple_state();
        let _ = region.new_compound_state();
        let _ = region.new_orthogonal_state();
        let _ = region.new_final_state();
    }
    let region = simple.default_region().unwrap();
    let vertices = region.vertices();
    let simple_state = vertices[0].as_state().unwrap();
    assert!(simple_state.is_simple() && !simple_state.is_composite());
    let compound = vertices[1].as_state().unwrap();
    assert!(compound.is_composite() && !compound.is_orthogonal());
    let orthogonal = vertices[2].as_state().unwrap();
    assert!(orthogonal.is_orthogonal() && !orthogonal.is_simple());
    let final_state = vertices[3].as_state().unwrap();
    assert!(final_state.is_final());
    assert!(!compound.is_final());
}

#[test]
fn region_transitions_default_to_external() {
    let mut simple: StateMachine = StateMachine::default();
    {
        let region: &mut Region = simple.region_mut(0).unwrap();
        let a = region.new_simple_state();
        let b = region.new_simple_state();
        region.new_transition(a, b);
    }
    let region = simple.default_region().unwrap();
    let t = &region.transitions()[0];
    assert!(t.is_external());
    assert!(!t.is_internal());
    assert!(!t.is_local());
}
