//! The richer metamodel mirroring more of the UML abstract syntax: state
//! machines owning regions, regions owning vertices (states, pseudo-states
//! and connection point references) and transitions. It describes structure
//! only and carries no executable semantics.
//!
//! Behaviours and constraints are polymorphic in the formalism; a stored
//! model keeps only their descriptive part (a label), as the
//! [`BehaviorDesc`] and [`ConstraintDesc`] records, while the [`Behavior`]
//! and [`Constraint`] traits remain the interface a client implements.

use vstd::prelude::*;

use crate::definition::id::ID;
use crate::error::ErrorKind;

verus! {

/// An event value carried by a trigger. A client's event type implements
/// this marker.
pub trait Event {

}

/// Something that carries an optional, diagnostic label.
pub trait Labeled {
    /// The label, if any.
    fn label(&self) -> &Option<String>;

    /// Attaches a label.
    fn set_label(&mut self, label: &str);

    /// Removes the label.
    fn unset_label(&mut self);
}

/// Something with an identity.
pub trait Identified {
    /// The identifier that is this element's identity.
    fn id(&self) -> &ID;
}

/// Something owned by a container element.
pub trait Contained {
    /// The identifier of the container.
    fn container(&self) -> &ID;

    /// Moves the element to another container.
    fn set_container(&mut self, container: ID);
}

/// Something that can check its own structure.
pub trait Validate {
    /// Checks the element, reporting the first structural defect.
    fn validate(&self) -> Result<(), ErrorKind>;
}

/// Something that owns regions.
pub trait HasRegions: Identified {
    /// Whether at least one region exists.
    fn has_regions(&self) -> bool;

    /// The owned regions, in order.
    fn regions(&self) -> &Vec<Region>;

    /// The region at the given position, if any.
    fn region(&self, index: usize) -> Option<&Region>;

    /// The first region, if any.
    fn default_region(&self) -> Option<&Region>;

    /// A mutable borrow of the region at the given position, if any.
    fn region_mut(&mut self, index: usize) -> Option<&mut Region>;

    /// Appends a region.
    fn add_region(&mut self, region: Region);
}

/// The descriptive part of a behaviour attached to a model element: its
/// label. What the behaviour does lives with the client, behind the
/// [`Behavior`] trait.
#[derive(Debug)]
pub struct BehaviorDesc {
    pub(crate) label: Option<String>,
}

/// The descriptive part of a constraint attached to a model element: its
/// label. How the constraint is evaluated lives with the client, behind
/// the [`Constraint`] trait.
#[derive(Debug)]
pub struct ConstraintDesc {
    pub(crate) label: Option<String>,
}

/// The top-level state chart type itself.
#[derive(Debug)]
pub struct StateMachine {
    pub(crate) id: ID,
    pub(crate) label: Option<String>,
    pub(crate) regions: Vec<Region>,
    pub(crate) sub_machine_states: Vec<ID>,
    pub(crate) connection_points: Vec<PseudoState>,
}

/// What kind of element owns a region.
#[derive(Debug)]
pub enum RegionContainerType {
    /// The region belongs to a state.
    State,
    /// The region belongs to a state machine.
    StateMachine,
}

/// A vertex of a region: a state, a pseudo-state, or a connection point
/// reference.
#[derive(Debug)]
pub enum Vertex {
    /// A full state.
    State(State),
    /// A pseudo-state.
    PseudoState(PseudoState),
    /// A connection point reference.
    ConnectionPointReference(ConnectionPointReference),
}

/// A region: an owned collection of vertices and transitions.
#[derive(Debug)]
pub struct Region {
    pub(crate) id: ID,
    pub(crate) label: Option<String>,
    pub(crate) container: ID,
    pub(crate) container_type: RegionContainerType,
    pub(crate) vertices: Vec<Vertex>,
    pub(crate) transitions: Vec<Transition>,
}

/// A trigger: an optional event value.
#[derive(Debug)]
pub struct Trigger {
    pub(crate) event: Option<String>,
}

/// A state of the metamodel: possibly hierarchical (through owned
/// regions), possibly a sub-machine reference, possibly final.
#[derive(Debug)]
pub struct State {
    pub(crate) id: ID,
    pub(crate) label: Option<String>,
    pub(crate) container: ID,
    pub(crate) regions: Vec<Region>,
    pub(crate) sub_machine: Option<ID>,
    pub(crate) connections: Vec<ID>,
    pub(crate) connection_points: Vec<ID>,
    pub(crate) deferrable_triggers: Vec<Trigger>,
    pub(crate) invariant: Option<ConstraintDesc>,
    pub(crate) entry: Option<BehaviorDesc>,
    pub(crate) do_activity: Option<BehaviorDesc>,
    pub(crate) exit: Option<BehaviorDesc>,
    pub(crate) final_state: bool,
}

/// The kind of a pseudo-state.
#[derive(Clone, Copy, Debug, PartialEq, Eq, Structural)]
pub enum PseudoStateKind {
    /// The entry marker of a region.
    Initial,
    /// Deep history: remembers nested active descendants.
    DeepHistory,
    /// Shallow history: remembers the directly active child.
    ShallowHistory,
    /// A join of concurrent branches.
    Join,
    /// A fork into concurrent branches.
    Fork,
    /// A junction of chained transitions.
    Junction,
    /// A dynamic choice point.
    Choice,
    /// An entry point of a sub-machine.
    EntryPoint,
    /// An exit point of a sub-machine.
    ExitPoint,
    /// A terminate marker.
    Terminate,
}

/// A pseudo-state vertex.
#[derive(Debug)]
pub struct PseudoState {
    pub(crate) id: ID,
    pub(crate) label: Option<String>,
    pub(crate) container: ID,
    pub(crate) kind: PseudoStateKind,
}

/// A reference to the connection points of a sub-machine state.
#[derive(Debug)]
pub struct ConnectionPointReference {
    pub(crate) id: ID,
    pub(crate) label: Option<String>,
    pub(crate) container: ID,
    pub(crate) entry: Vec<ID>,
    pub(crate) exit: Vec<ID>,
    pub(crate) state: Option<ID>,
}

/// The kind of a transition.
#[derive(Clone, Copy, Debug, PartialEq, Eq, Structural)]
pub enum TransitionKind {
    /// Never leaves its source.
    Internal,
    /// Stays within its containing composite.
    Local,
    /// Crosses the source's boundary.
    External,
}

/// An edge of the metamodel between a source and a target vertex.
#[derive(Debug)]
pub struct Transition {
    pub(crate) label: Option<String>,
    pub(crate) container: ID,
    pub(crate) kind: TransitionKind,
    pub(crate) source: ID,
    pub(crate) target: ID,
    pub(crate) triggers: Vec<Trigger>,
    pub(crate) guard: Option<ConstraintDesc>,
    pub(crate) effect: Option<BehaviorDesc>,
}

/// A behaviour a client attaches to states and transitions.
pub trait Behavior: Labeled {
    /// Performs the behaviour.
    fn perform(&self, in_state: &ID, on_trigger: &Trigger);
}

/// A constraint a client attaches to states and transitions.
pub trait Constraint: Labeled {
    /// Evaluates the constraint.
    fn evaluate(&self, in_state: &ID, on_trigger: &Trigger) -> bool;
}

impl BehaviorDesc {
    /// An unlabelled behaviour description.
    pub fn new() -> Self {
        BehaviorDesc { label: None }
    }

    /// A labelled behaviour description.
    pub fn with_label(label: &str) -> Self {
        BehaviorDesc { label: Some(label.to_owned()) }
    }
}

impl ConstraintDesc {
    /// An unlabelled constraint description.
    pub fn new() -> Self {
        ConstraintDesc { label: None }
    }

    /// A labelled constraint description.
    pub fn with_label(label: &str) -> Self {
        ConstraintDesc { label: Some(label.to_owned()) }
    }
}

} // verus!
