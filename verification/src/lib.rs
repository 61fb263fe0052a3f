//! A library for describing and executing UML-style hierarchical state
//! machines (statecharts).
//!
//! The crate is organised around three cooperating pieces: the descriptive
//! model (states, transitions, guards and actions), a structural validator
//! that checks a model against the well-formedness rules of the formalism,
//! and an execution engine that drives independent instances of a validated
//! model against a stream of posted events.

pub mod base;
pub mod definition;
pub mod error;
pub mod execution;
pub mod format;
pub mod tag;
pub mod visitor;

pub use definition::behavior::{Action, ActionEffect, Condition, GuardExpr};
pub use definition::{InternalEvent, State, StateKind, StateMachine, Transition};
pub use error::ErrorKind;
pub use execution::StateMachineInstance;
pub use tag::StateID;
