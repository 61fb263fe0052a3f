//! Tests of the identifier types: random generation, prefixes, appending,
//! validation and rendering.

use std::str::FromStr;

use uml_state_machine::base::id::IdErrorKind;
use uml_state_machine::base::ID;
use uml_state_machine::StateID;

#[test]
fn test_something() {
    let first_id = ID::random_with_prefix("thing").unwrap();
    let _next_id = first_id.append_random();
}

#[test]
fn id_test_something() {
    let first_id = uml_state_machine::definition::id::ID::random_with_prefix("thing").unwrap();
    let _next_id = first_id.append_random();
}

#[test]
fn random_with_prefix_keeps_prefix() {
    let id = ID::random_with_prefix("thing").unwrap();
    let text = id.to_string();
    assert!(text.starts_with("thing::"));
    assert_eq!(text.len(), "thing".len() + 2 + 22);
}

#[test]
fn empty_prefix_is_rejected() {
    assert_eq!(ID::random_with_prefix("").err(), Some(IdErrorKind::EmptyString));
    assert_eq!(
        ID::random_with_prefix("no spaces").err(),
        Some(IdErrorKind::InvalidCharacter)
    );
}

#[test]
fn state_id_parsing_and_validity() {
    let id = StateID::from_str("state-1_a:b").unwrap();
    assert!(id.is_valid());
    assert_eq!(id.to_string(), "state-1_a:b");
    assert!(StateID::from_str("").is_err());
    assert!(StateID::from_str("bad char").is_err());
    assert!(!StateID::invalid().is_valid());
}

#[test]
fn append_joins_with_separator() {
    let id = StateID::from_str("root").unwrap();
    let child = id.append("leaf").unwrap();
    assert_eq!(child.to_string(), "root::leaf");
    assert!(id.append("").is_err());
}

#[test]
fn state_ids_compare_by_text() {
    let a = StateID::from_str("alpha").unwrap();
    let b = StateID::from_str("alpha").unwrap();
    let c = StateID::from_str("beta").unwrap();
    assert_eq!(a, b);
    assert_ne!(a, c);
    assert_eq!(a.clone(), b);
}

#[test]
fn split_returns_valid_segments() {
    let id = StateID::from_str("alpha").unwrap().append("beta").unwrap();
    let parts = id.split();
    let names: Vec<String> = parts.iter().map(|p| p.to_string()).collect();
    assert_eq!(names, vec!["alpha".to_string(), "beta".to_string()]);

    // the invalid placeholder has no valid segments
    assert!(StateID::invalid().split().is_empty());

    let single = ID::random_with_prefix("thing").unwrap();
    let parts = single.split();
    assert_eq!(parts.len(), 2);
    assert_eq!(parts[0].to_string(), "thing");
}

#[test]
fn unicode_alphanumerics_are_accepted() {
    let id = StateID::from_str("état-1").unwrap();
    assert!(id.is_valid());
    assert_eq!(id.to_string(), "état-1");
    assert!(ID::random_with_prefix("zustand-größe").is_ok());
    // separators and punctuation other than the identifier set stay out
    assert!(StateID::from_str("a b").is_err());
    assert!(StateID::from_str("a/b").is_err());
}
