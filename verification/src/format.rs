//! Support for reading and writing external representations of a
//! metamodel state machine. Each sub-module covers one representation and
//! may implement either direction.

use vstd::prelude::*;

use crate::definition::types::StateMachine;

pub mod plant_uml;

verus! {

/// Parses an external representation into a new model.
pub trait Parse {
    /// The parser's own error type.
    type Error;

    /// Parses the given text.
    fn parse(&self, string: &str) -> Result<StateMachine, Self::Error>;
}

/// Creates a textual representation of a model.
pub trait Stringify {
    /// The writer's own error type.
    type Error;

    /// Renders the given machine.
    fn stringify(&self, machine: &StateMachine) -> Result<String, Self::Error>;
}

} // verus!
