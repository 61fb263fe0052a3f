//! Tests of guard conditions, actions and field paths.

use std::str::FromStr;

use uml_state_machine::base::context::{FieldName, FieldPath};
use uml_state_machine::{Action, ActionEffect, Condition, GuardExpr, InternalEvent, StateID};

fn sid(s: &str) -> StateID {
    StateID::from_str(s).unwrap()
}

#[test]
fn guards_evaluate_against_the_context() {
    let ctx: Vec<i64> = vec![5, -2];
    let here = sid("here");
    assert!(Condition::new(GuardExpr::Always).evaluate(&here, &None, &ctx));
    assert!(!Condition::new(GuardExpr::Never).evaluate(&here, &Some(1), &ctx));
    assert!(Condition::new(GuardExpr::SlotEquals { slot: 0, value: 5 }).evaluate(
        &here,
        &None,
        &ctx
    ));
    assert!(!Condition::new(GuardExpr::SlotEquals { slot: 1, value: 5 }).evaluate(
        &here,
        &None,
        &ctx
    ));
    assert!(Condition::new(GuardExpr::SlotAtLeast { slot: 1, value: -3 }).evaluate(
        &here,
        &None,
        &ctx
    ));
    // a slot outside the context never holds
    assert!(!Condition::new(GuardExpr::SlotEquals { slot: 9, value: 0 }).evaluate(
        &here,
        &None,
        &ctx
    ));
    let labelled = Condition::with_label(GuardExpr::Always, "always");
    assert_eq!(labelled.label().as_deref(), Some("always"));
    assert!(Condition::new(GuardExpr::Always).label().is_none());
}

#[test]
fn actions_mutate_the_context() {
    let here = sid("here");
    let mut ctx: Vec<i64> = vec![0, i64::MAX];
    assert!(Action::new(ActionEffect::SetSlot { slot: 0, value: 41 }).call(&here, InternalEvent::Run, &mut ctx));
    assert!(Action::new(ActionEffect::AddSlot { slot: 0, value: 1 }).call(&here, InternalEvent::Run, &mut ctx));
    assert_eq!(ctx[0], 42);
    // wrapping addition at the top of the range
    assert!(Action::new(ActionEffect::AddSlot { slot: 1, value: 1 }).call(&here, InternalEvent::Run, &mut ctx));
    assert_eq!(ctx[1], i64::MIN);
    // a slot outside the context is left alone
    assert!(Action::new(ActionEffect::SetSlot { slot: 9, value: 7 }).call(&here, InternalEvent::Run, &mut ctx));
    assert_eq!(ctx, vec![42, i64::MIN]);
    // the aborting action reports failure and changes nothing
    assert!(!Action::new(ActionEffect::Abort).call(&here, InternalEvent::Run, &mut ctx));
    assert_eq!(ctx, vec![42, i64::MIN]);
    let labelled = Action::with_label(ActionEffect::NoOp, "note");
    assert_eq!(labelled.label().as_deref(), Some("note"));
}

#[test]
fn field_names_are_validated() {
    assert!(FieldName::from_str("alpha-1_x").is_ok());
    assert!(FieldName::from_str("").is_err());
    assert!(FieldName::from_str("with space").is_err());
    // the path separator may not appear inside a name
    assert!(FieldName::from_str("a:b").is_err());
    assert_eq!(FieldName::from_str("leaf").unwrap().to_string(), "leaf");
}

#[test]
fn field_paths_walk_from_the_front() {
    let names = vec![
        FieldName::from_str("root").unwrap(),
        FieldName::from_str("middle").unwrap(),
        FieldName::from_str("leaf").unwrap(),
    ];
    let path = FieldPath::from_names(names);
    assert_eq!(path.len(), 3);
    assert!(!path.is_empty());
    assert_eq!(path.first().unwrap().to_string(), "root");
    let rest = path.rest();
    assert_eq!(rest.len(), 2);
    assert_eq!(rest.first().unwrap().to_string(), "middle");
    let tail = rest.rest().rest();
    assert!(tail.is_empty());
    assert!(tail.first().is_none());
    assert!(tail.rest().is_empty());
    assert_eq!(path.clone().len(), 3);
}
