//! Implementations for the metamodel: identity, labelling and containment
//! for every element, region-owned construction of vertices and
//! transitions, and lookup of vertices across the region tree.

use vstd::prelude::*;

use crate::definition::id::ID;
use crate::definition::types::{
    BehaviorDesc, ConnectionPointReference, Contained, ConstraintDesc, HasRegions, Identified,
    Labeled, PseudoState, PseudoStateKind, Region, RegionContainerType, State, StateMachine,
    Transition, TransitionKind, Trigger, Validate, Vertex,
};
use crate::error::ErrorKind;

verus! {

broadcast use vstd::seq::group_seq_axioms;

/// The identifier text of a vertex.
pub closed spec fn vertex_spec_id(v: Vertex) -> Seq<char> {
    match v {
        Vertex::State(s) => s.id@,
        Vertex::PseudoState(p) => p.id@,
        Vertex::ConnectionPointReference(c) => c.id@,
    }
}

/// The kind of a pseudo-state vertex, if the vertex is one.
pub open spec fn vertex_pseudo_kind(v: Vertex) -> Option<PseudoStateKind> {
    match v {
        Vertex::PseudoState(p) => Some(p.spec_kind()),
        _ => None,
    }
}

/// Whether a vertex is a full state marked final.
pub open spec fn vertex_is_final_state(v: Vertex) -> bool {
    match v {
        Vertex::State(s) => s.spec_is_final(),
        _ => false,
    }
}

// ------------------------------------------------------------------------
// ConnectionPointReference
// ------------------------------------------------------------------------

impl Identified for ConnectionPointReference {
    fn id(&self) -> &ID {
        &self.id
    }
}

impl Labeled for ConnectionPointReference {
    fn label(&self) -> &Option<String> {
        &self.label
    }

    fn set_label(&mut self, label: &str) {
        self.label = Some(label.to_owned());
    }

    fn unset_label(&mut self) {
        self.label = None;
    }
}

impl Contained for ConnectionPointReference {
    fn container(&self) -> &ID {
        &self.container
    }

    fn set_container(&mut self, container: ID) {
        self.container = container;
    }
}

impl ConnectionPointReference {
    /// A fresh connection point reference inside the given container.
    pub fn within(container: ID) -> Self {
        ConnectionPointReference {
            id: ID::random(),
            label: None,
            container,
            entry: Vec::new(),
            exit: Vec::new(),
            state: None,
        }
    }

    /// The referenced entry point identifiers.
    pub fn entry(&self) -> &Vec<ID> {
        &self.entry
    }

    /// The referenced exit point identifiers.
    pub fn exit(&self) -> &Vec<ID> {
        &self.exit
    }

    /// The referenced sub-machine state, if any.
    pub fn state(&self) -> &Option<ID> {
        &self.state
    }
}

// ------------------------------------------------------------------------
// PseudoState
// ------------------------------------------------------------------------

impl Identified for PseudoState {
    fn id(&self) -> &ID {
        &self.id
    }
}

impl Labeled for PseudoState {
    fn label(&self) -> &Option<String> {
        &self.label
    }

    fn set_label(&mut self, label: &str) {
        self.label = Some(label.to_owned());
    }

    fn unset_label(&mut self) {
        self.label = None;
    }
}

impl Contained for PseudoState {
    fn container(&self) -> &ID {
        &self.container
    }

    fn set_container(&mut self, container: ID) {
        self.container = container;
    }
}

impl PseudoState {
    /// The pseudo-state's kind.
    pub closed spec fn spec_kind(self) -> PseudoStateKind {
        self.kind
    }

    /// A fresh pseudo-state of the given kind inside the given container.
    pub fn within(container: ID, kind: PseudoStateKind) -> (r: Self)
        ensures
            r.spec_kind() == kind,
    {
        PseudoState { id: ID::random(), label: None, container, kind }
    }

    /// The pseudo-state's kind.
    pub fn kind(&self) -> (r: PseudoStateKind)
        ensures
            r == self.spec_kind(),
    {
        self.kind
    }

    /// Whether this is an initial marker.
    pub fn is_initial(&self) -> (r: bool)
        ensures
            r == (self.spec_kind() is Initial),
    {
        match self.kind {
            PseudoStateKind::Initial => true,
            _ => false,
        }
    }

    /// Whether this is a deep history marker.
    pub fn is_deep_history(&self) -> (r: bool)
        ensures
            r == (self.spec_kind() is DeepHistory),
    {
        match self.kind {
            PseudoStateKind::DeepHistory => true,
            _ => false,
        }
    }

    /// Whether this is a shallow history marker.
    pub fn is_shallow_history(&self) -> (r: bool)
        ensures
            r == (self.spec_kind() is ShallowHistory),
    {
        match self.kind {
            PseudoStateKind::ShallowHistory => true,
            _ => false,
        }
    }

    /// Whether this is a join.
    pub fn is_join(&self) -> (r: bool)
        ensures
            r == (self.spec_kind() is Join),
    {
        match self.kind {
            PseudoStateKind::Join => true,
            _ => false,
        }
    }

    /// Whether this is a fork.
    pub fn is_fork(&self) -> (r: bool)
        ensures
            r == (self.spec_kind() is Fork),
    {
        match self.kind {
            PseudoStateKind::Fork => true,
            _ => false,
        }
    }

    /// Whether this is a junction.
    pub fn is_junction(&self) -> (r: bool)
        ensures
            r == (self.spec_kind() is Junction),
    {
        match self.kind {
            PseudoStateKind::Junction => true,
            _ => false,
        }
    }

    /// Whether this is a choice point.
    pub fn is_choice(&self) -> (r: bool)
        ensures
            r == (self.spec_kind() is Choice),
    {
        match self.kind {
            PseudoStateKind::Choice => true,
            _ => false,
        }
    }

    /// Whether this is an entry point.
    pub fn is_entry_point(&self) -> (r: bool)
        ensures
            r == (self.spec_kind() is EntryPoint),
    {
        match self.kind {
            PseudoStateKind::EntryPoint => true,
            _ => false,
        }
    }

    /// Whether this is an exit point.
    pub fn is_exit_point(&self) -> (r: bool)
        ensures
            r == (self.spec_kind() is ExitPoint),
    {
        match self.kind {
            PseudoStateKind::ExitPoint => true,
            _ => false,
        }
    }

    /// Whether this is a terminate marker.
    pub fn is_terminate(&self) -> (r: bool)
        ensures
            r == (self.spec_kind() is Terminate),
    {
        match self.kind {
            PseudoStateKind::Terminate => true,
            _ => false,
        }
    }
}

// ------------------------------------------------------------------------
// Region
// ------------------------------------------------------------------------

impl Identified for Region {
    fn id(&self) -> &ID {
        &self.id
    }
}

impl Labeled for Region {
    fn label(&self) -> &Option<String> {
        &self.label
    }

    fn set_label(&mut self, label: &str) {
        self.label = Some(label.to_owned());
    }

    fn unset_label(&mut self) {
        self.label = None;
    }
}

impl Contained for Region {
    fn container(&self) -> &ID {
        &self.container
    }

    fn set_container(&mut self, container: ID) {
        self.container = container;
    }
}

impl Region {
    /// The region's vertices, in insertion order.
    pub closed spec fn spec_vertices(self) -> Seq<Vertex> {
        self.vertices@
    }

    /// The region's transitions, in insertion order.
    pub closed spec fn spec_transitions(self) -> Seq<Transition> {
        self.transitions@
    }

    /// A fresh region owned by a state.
    pub fn within_state(container: ID) -> (r: Self)
        ensures
            r.spec_vertices().len() == 0,
            r.spec_transitions().len() == 0,
    {
        Region {
            id: ID::random(),
            container,
            container_type: RegionContainerType::State,
            label: None,
            vertices: Vec::new(),
            transitions: Vec::new(),
        }
    }

    /// A fresh region owned by a state machine.
    pub fn within_state_machine(container: ID) -> (r: Self)
        ensures
            r.spec_vertices().len() == 0,
            r.spec_transitions().len() == 0,
    {
        Region {
            id: ID::random(),
            container,
            container_type: RegionContainerType::StateMachine,
            label: None,
            vertices: Vec::new(),
            transitions: Vec::new(),
        }
    }

    /// Appends a vertex.
    fn add_vertex(&mut self, vertex: Vertex)
        ensures
            final(self).spec_vertices() == old(self).spec_vertices().push(vertex),
            final(self).spec_transitions() == old(self).spec_transitions(),
    {
        self.vertices.push(vertex);
    }

    /// Appends a full state.
    pub fn add_state(&mut self, state: State)
        ensures
            final(self).spec_vertices() == old(self).spec_vertices().push(Vertex::State(state)),
            final(self).spec_transitions() == old(self).spec_transitions(),
    {
        self.add_vertex(Vertex::State(state));
    }

    /// Adds a fresh simple state and returns its identifier.
    pub fn new_simple_state(&mut self) -> (r: ID)
        ensures
            final(self).spec_vertices().len() == old(self).spec_vertices().len() + 1,
            final(self).spec_transitions() == old(self).spec_transitions(),
            vertex_spec_id(final(self).spec_vertices().last()) == r@,
            !vertex_is_final_state(final(self).spec_vertices().last()),
            final(self).spec_vertices().last() is State,
    {
        let new_state = State::within(self.id.clone());
        let new_id = new_state.id.clone();
        self.add_state(new_state);
        new_id
    }

    /// Adds a fresh compound state (one region) and returns its
    /// identifier.
    pub fn new_compound_state(&mut self) -> (r: ID)
        ensures
            final(self).spec_vertices().len() == old(self).spec_vertices().len() + 1,
            final(self).spec_transitions() == old(self).spec_transitions(),
    {
        let mut new_state = State::within(self.id.clone());
        let new_id = new_state.id.clone();
        let _ = new_state.new_region();
        self.add_state(new_state);
        new_id
    }

    /// Adds a fresh orthogonal state (two regions) and returns its
    /// identifier.
    pub fn new_orthogonal_state(&mut self) -> (r: ID)
        ensures
            final(self).spec_vertices().len() == old(self).spec_vertices().len() + 1,
            final(self).spec_transitions() == old(self).spec_transitions(),
    {
        let mut new_state = State::within(self.id.clone());
        let new_id = new_state.id.clone();
        let _ = new_state.new_region();
        let _ = new_state.new_region();
        self.add_state(new_state);
        new_id
    }

    /// Adds a fresh final state and returns its identifier.
    pub fn new_final_state(&mut self) -> (r: ID)
        ensures
            final(self).spec_vertices().len() == old(self).spec_vertices().len() + 1,
            final(self).spec_transitions() == old(self).spec_transitions(),
            vertex_spec_id(final(self).spec_vertices().last()) == r@,
            vertex_is_final_state(final(self).spec_vertices().last()),
    {
        let mut new_state = State::within(self.id.clone());
        let new_id = new_state.id.clone();
        new_state.final_state = true;
        self.add_state(new_state);
        new_id
    }

    /// Adds a fresh initial pseudo-state and returns its identifier.
    pub fn new_initial_state(&mut self) -> (r: ID)
        ensures
            final(self).spec_vertices().len() == old(self).spec_vertices().len() + 1,
            final(self).spec_transitions() == old(self).spec_transitions(),
            vertex_spec_id(final(self).spec_vertices().last()) == r@,
            vertex_pseudo_kind(final(self).spec_vertices().last()) == Some(
                PseudoStateKind::Initial,
            ),
    {
        self.new_pseudo_state(PseudoStateKind::Initial)
    }

    /// Adds a fresh deep history pseudo-state and returns its identifier.
    pub fn new_deep_history_state(&mut self) -> (r: ID)
        ensures
            final(self).spec_vertices().len() == old(self).spec_vertices().len() + 1,
            final(self).spec_transitions() == old(self).spec_transitions(),
    {
        self.new_pseudo_state(PseudoStateKind::DeepHistory)
    }

    /// Adds a fresh shallow history pseudo-state and returns its
    /// identifier.
    pub fn new_shallow_history_state(&mut self) -> (r: ID)
        ensures
            final(self).spec_vertices().len() == old(self).spec_vertices().len() + 1,
            final(self).spec_transitions() == old(self).spec_transitions(),
    {
        self.new_pseudo_state(PseudoStateKind::ShallowHistory)
    }

    /// Adds a fresh join pseudo-state and returns its identifier.
    pub fn new_join(&mut self) -> (r: ID)
        ensures
            final(self).spec_vertices().len() == old(self).spec_vertices().len() + 1,
            final(self).spec_transitions() == old(self).spec_transitions(),
    {
        self.new_pseudo_state(PseudoStateKind::Join)
    }

    /// Adds a fresh fork pseudo-state and returns its identifier.
    pub fn new_fork(&mut self) -> (r: ID)
        ensures
            final(self).spec_vertices().len() == old(self).spec_vertices().len() + 1,
            final(self).spec_transitions() == old(self).spec_transitions(),
    {
        self.new_pseudo_state(PseudoStateKind::Fork)
    }

    /// Adds a fresh junction pseudo-state and returns its identifier.
    pub fn new_junction(&mut self) -> (r: ID)
        ensures
            final(self).spec_vertices().len() == old(self).spec_vertices().len() + 1,
            final(self).spec_transitions() == old(self).spec_transitions(),
    {
        self.new_pseudo_state(PseudoStateKind::Junction)
    }

    /// Adds a fresh choice pseudo-state and returns its identifier.
    pub fn new_choice_state(&mut self) -> (r: ID)
        ensures
            final(self).spec_vertices().len() == old(self).spec_vertices().len() + 1,
            final(self).spec_transitions() == old(self).spec_transitions(),
    {
        self.new_pseudo_state(PseudoStateKind::Choice)
    }

    /// Adds a fresh entry point pseudo-state and returns its identifier.
    pub fn new_entry_point(&mut self) -> (r: ID)
        ensures
            final(self).spec_vertices().len() == old(self).spec_vertices().len() + 1,
            final(self).spec_transitions() == old(self).spec_transitions(),
    {
        self.new_pseudo_state(PseudoStateKind::EntryPoint)
    }

    /// Adds a fresh exit point pseudo-state and returns its identifier.
    pub fn new_exit_point(&mut self) -> (r: ID)
        ensures
            final(self).spec_vertices().len() == old(self).spec_vertices().len() + 1,
            final(self).spec_transitions() == old(self).spec_transitions(),
    {
        self.new_pseudo_state(PseudoStateKind::ExitPoint)
    }

    /// Adds a fresh terminate pseudo-state and returns its identifier.
    pub fn new_terminate_state(&mut self) -> (r: ID)
        ensures
            final(self).spec_vertices().len() == old(self).spec_vertices().len() + 1,
            final(self).spec_transitions() == old(self).spec_transitions(),
    {
        self.new_pseudo_state(PseudoStateKind::Terminate)
    }

    /// Adds a fresh pseudo-state of the given kind and returns its
    /// identifier.
    fn new_pseudo_state(&mut self, kind: PseudoStateKind) -> (r: ID)
        ensures
            final(self).spec_vertices().len() == old(self).spec_vertices().len() + 1,
            final(self).spec_transitions() == old(self).spec_transitions(),
            vertex_spec_id(final(self).spec_vertices().last()) == r@,
            vertex_pseudo_kind(final(self).spec_vertices().last()) == Some(kind),
    {
        let new_state = PseudoState::within(self.id.clone(), kind);
        let new_id = new_state.id.clone();
        self.add_pseudo_state(new_state);
        new_id
    }

    /// Appends a pseudo-state.
    pub fn add_pseudo_state(&mut self, pseudo_state: PseudoState)
        ensures
            final(self).spec_vertices() == old(self).spec_vertices().push(
                Vertex::PseudoState(pseudo_state),
            ),
            final(self).spec_transitions() == old(self).spec_transitions(),
    {
        self.add_vertex(Vertex::PseudoState(pseudo_state));
    }

    /// Appends a connection point reference.
    pub fn add_connection_point_ref(&mut self, cpr: ConnectionPointReference)
        ensures
            final(self).spec_vertices() == old(self).spec_vertices().push(
                Vertex::ConnectionPointReference(cpr),
            ),
            final(self).spec_transitions() == old(self).spec_transitions(),
    {
        self.add_vertex(Vertex::ConnectionPointReference(cpr));
    }

    /// What kind of element owns this region.
    pub fn container_type(&self) -> &RegionContainerType {
        &self.container_type
    }

    /// The region's vertices, in insertion order.
    pub fn vertices(&self) -> (r: &Vec<Vertex>)
        ensures
            r@ == self.spec_vertices(),
    {
        &self.vertices
    }

    /// The region's transitions, in insertion order.
    pub fn transitions(&self) -> (r: &Vec<Transition>)
        ensures
            r@ == self.spec_transitions(),
    {
        &self.transitions
    }

    /// Adds a fresh transition between the given vertices.
    pub fn new_transition(&mut self, source: ID, target: ID)
        ensures
            final(self).spec_transitions().len() == old(self).spec_transitions().len() + 1,
            final(self).spec_vertices() == old(self).spec_vertices(),
    {
        let region_id = self.id.clone();
        let transition = Transition::within(source, target, region_id);
        self.add_transition(transition);
    }

    /// Appends a transition.
    pub fn add_transition(&mut self, transition: Transition)
        ensures
            final(self).spec_transitions() == old(self).spec_transitions().push(transition),
            final(self).spec_vertices() == old(self).spec_vertices(),
    {
        self.transitions.push(transition);
    }
}

// ------------------------------------------------------------------------
// State
// ------------------------------------------------------------------------

impl Identified for State {
    fn id(&self) -> &ID {
        &self.id
    }
}

impl Labeled for State {
    fn label(&self) -> &Option<String> {
        &self.label
    }

    fn set_label(&mut self, label: &str) {
        self.label = Some(label.to_owned());
    }

    fn unset_label(&mut self) {
        self.label = None;
    }
}

impl Contained for State {
    fn container(&self) -> &ID {
        &self.container
    }

    fn set_container(&mut self, container: ID) {
        self.container = container;
    }
}

impl HasRegions for State {
    fn has_regions(&self) -> bool {
        self.regions.len() > 0
    }

    fn regions(&self) -> &Vec<Region> {
        &self.regions
    }

    fn region(&self, index: usize) -> Option<&Region> {
        if index < self.regions.len() {
            Some(&self.regions[index])
        } else {
            None
        }
    }

    fn default_region(&self) -> Option<&Region> {
        self.region(0)
    }

    fn region_mut(&mut self, index: usize) -> Option<&mut Region> {
        if index < self.regions.len() {
            Some(&mut self.regions[index])
        } else {
            None
        }
    }

    fn add_region(&mut self, region: Region) {
        self.regions.push(region);
    }
}

impl State {
    /// Whether this state is marked final.
    pub closed spec fn spec_is_final(self) -> bool {
        self.final_state
    }

    /// The number of regions this state owns.
    pub closed spec fn spec_region_count(self) -> int {
        self.regions@.len() as int
    }

    /// A fresh simple state inside the given container.
    pub fn within(container: ID) -> (r: Self)
        ensures
            r.spec_region_count() == 0,
            !r.spec_is_final(),
    {
        State {
            id: ID::random(),
            label: None,
            container,
            regions: Vec::new(),
            sub_machine: None,
            connections: Vec::new(),
            connection_points: Vec::new(),
            deferrable_triggers: Vec::new(),
            invariant: None,
            entry: None,
            do_activity: None,
            exit: None,
            final_state: false,
        }
    }

    /// Adds a fresh region to this state and returns its identifier.
    pub fn new_region(&mut self) -> (r: ID)
        ensures
            final(self).spec_region_count() == old(self).spec_region_count() + 1,
            final(self).spec_is_final() == old(self).spec_is_final(),
    {
        let own_id = self.id.clone();
        let region = Region::within_state(own_id);
        let region_id = region.id.clone();
        self.regions.push(region);
        region_id
    }

    /// The referenced sub-machine, if any.
    pub fn sub_machine(&self) -> &Option<ID> {
        &self.sub_machine
    }

    /// The connection point references of a sub-machine state.
    pub fn connections(&self) -> &Vec<ID> {
        &self.connections
    }

    /// The connection points of a composite state.
    pub fn connection_points(&self) -> &Vec<ID> {
        &self.connection_points
    }

    /// The triggers whose events this state defers.
    pub fn deferrable_triggers(&self) -> &Vec<Trigger> {
        &self.deferrable_triggers
    }

    /// The state invariant, if any.
    pub fn state_invariant(&self) -> &Option<ConstraintDesc> {
        &self.invariant
    }

    /// The entry behaviour, if any.
    pub fn entry(&self) -> &Option<BehaviorDesc> {
        &self.entry
    }

    /// The do-activity behaviour, if any.
    pub fn do_activity(&self) -> &Option<BehaviorDesc> {
        &self.do_activity
    }

    /// The exit behaviour, if any.
    pub fn exit(&self) -> &Option<BehaviorDesc> {
        &self.exit
    }

    /// Whether the state owns exactly one region.
    pub fn is_composite(&self) -> (r: bool)
        ensures
            r == (self.spec_region_count() == 1),
    {
        self.regions.len() == 1
    }

    /// Whether the state owns more than one region.
    pub fn is_orthogonal(&self) -> (r: bool)
        ensures
            r == (self.spec_region_count() > 1),
    {
        self.regions.len() > 1
    }

    /// Whether the state owns no regions.
    pub fn is_simple(&self) -> (r: bool)
        ensures
            r == (self.spec_region_count() == 0),
    {
        self.regions.len() == 0
    }

    /// Whether the state references a sub-machine.
    pub fn is_sub_machine_state(&self) -> bool {
        match &self.sub_machine {
            Some(_) => true,
            None => false,
        }
    }

    /// Whether the state is marked final.
    pub fn is_final(&self) -> (r: bool)
        ensures
            r == self.spec_is_final(),
    {
        self.final_state
    }
}

// ------------------------------------------------------------------------
// StateMachine
// ------------------------------------------------------------------------

impl Identified for StateMachine {
    fn id(&self) -> &ID {
        &self.id
    }
}

impl Labeled for StateMachine {
    fn label(&self) -> &Option<String> {
        &self.label
    }

    fn set_label(&mut self, label: &str) {
        self.label = Some(label.to_owned());
    }

    fn unset_label(&mut self) {
        self.label = None;
    }
}

impl HasRegions for StateMachine {
    fn has_regions(&self) -> bool {
        self.regions.len() > 0
    }

    fn regions(&self) -> &Vec<Region> {
        &self.regions
    }

    fn region(&self, index: usize) -> Option<&Region> {
        if index < self.regions.len() {
            Some(&self.regions[index])
        } else {
            None
        }
    }

    fn default_region(&self) -> Option<&Region> {
        self.region(0)
    }

    fn region_mut(&mut self, index: usize) -> Option<&mut Region> {
        if index < self.regions.len() {
            Some(&mut self.regions[index])
        } else {
            None
        }
    }

    fn add_region(&mut self, region: Region) {
        self.regions.push(region);
    }
}

impl Default for StateMachine {
    /// A fresh machine with one default region.
    fn default() -> (r: Self)
        ensures
            r.spec_region_count() == 1,
    {
        StateMachine::new_default()
    }
}

impl Validate for StateMachine {
    /// A machine is structurally sound when it owns at least one region.
    fn validate(&self) -> Result<(), ErrorKind> {
        if self.regions.len() == 0 {
            Err(ErrorKind::ChartStatesEmpty)
        } else {
            Ok(())
        }
    }
}

impl StateMachine {
    /// The number of regions the machine owns.
    pub closed spec fn spec_region_count(self) -> int {
        self.regions@.len() as int
    }

    /// The machine's identifier text.
    pub closed spec fn spec_id(self) -> Seq<char> {
        self.id@
    }

    /// The machine's identifier.
    pub fn id_ref(&self) -> (r: &ID)
        ensures
            r@ == self.spec_id(),
    {
        &self.id
    }

    /// The machine's label, if any.
    pub fn label_ref(&self) -> &Option<String> {
        &self.label
    }

    /// The machine's regions, in order.
    pub fn regions_ref(&self) -> &Vec<Region> {
        &self.regions
    }

    /// The number of regions the machine owns.
    pub fn region_count(&self) -> (r: usize)
        ensures
            r == self.spec_region_count(),
    {
        self.regions.len()
    }

    /// A fresh machine with one default region.
    pub fn new_default() -> (r: Self)
        ensures
            r.spec_region_count() == 1,
    {
        let machine_id = ID::random();
        let mut new_machine = StateMachine {
            id: machine_id,
            label: None,
            regions: Vec::new(),
            sub_machine_states: Vec::new(),
            connection_points: Vec::new(),
        };
        let _ = new_machine.new_region();
        new_machine
    }

    /// A fresh labelled machine with one default region.
    pub fn labeled(label: &str) -> (r: Self)
        ensures
            r.spec_region_count() == 1,
    {
        let mut machine = StateMachine::new_default();
        machine.label = Some(label.to_owned());
        machine
    }

    /// Adds a fresh region to the machine and returns its identifier.
    pub fn new_region(&mut self) -> (r: ID)
        ensures
            final(self).spec_region_count() == old(self).spec_region_count() + 1,
    {
        let own_id = self.id.clone();
        let region = Region::within_state_machine(own_id);
        let region_id = region.id.clone();
        self.regions.push(region);
        region_id
    }

    /// Whether some state of the machine references a sub-machine.
    pub fn has_sub_machine_states(&self) -> bool {
        self.sub_machine_states.len() > 0
    }

    /// The identifiers of the sub-machine states.
    pub fn sub_machine_states(&self) -> &Vec<ID> {
        &self.sub_machine_states
    }

    /// Whether the machine declares connection points.
    pub fn has_connection_points(&self) -> bool {
        self.connection_points.len() > 0
    }

    /// The machine's connection points.
    pub fn connection_points(&self) -> &Vec<PseudoState> {
        &self.connection_points
    }

    /// Resolves a machine identifier. Only the machine itself is known:
    /// no registry of other machines is held.
    pub fn find_machine(&self, machine: &ID) -> (r: Option<&StateMachine>)
        ensures
            r is Some <==> machine@ == self.spec_id(),
    {
        if *machine == self.id {
            Some(self)
        } else {
            None
        }
    }

    /// Looks a vertex up by its containing region and its identifier,
    /// searching the whole region tree. A returned vertex carries the
    /// requested identifier.
    pub fn find_vertex(&self, container: &ID, vertex: &ID) -> (r: Option<&Vertex>)
        ensures
            match r {
                Some(v) => vertex_spec_id(*v) == vertex@,
                None => true,
            },
    {
        find_vertex_in_regions(&self.regions, container, vertex)
    }

    /// Walks the region tree and returns every (region, vertex) identifier
    /// pair, the index the lookup operates over.
    pub fn index_references(&self) -> Vec<(ID, ID)> {
        index_regions(&self.regions)
    }
}

/// Searches a list of regions for a vertex with the given identifier
/// inside the region with the given identifier.
fn find_vertex_in_regions<'a>(
    regions: &'a Vec<Region>,
    container: &ID,
    vertex: &ID,
) -> (r: Option<&'a Vertex>)
    ensures
        match r {
            Some(v) => vertex_spec_id(*v) == vertex@,
            None => true,
        },
    decreases regions,
{
    let n = regions.len();
    let mut i: usize = 0;
    while i < n
        invariant
            n == regions@.len(),
            i <= n,
        decreases n - i,
    {
        proof {
            assert(regions@[i as int] == regions[i as int]);
        }
        let found = find_vertex_in_region(&regions[i], container, vertex);
        match found {
            Some(v) => {
                return Some(v);
            },
            None => {},
        }
        i = i + 1;
    }
    None
}

/// Searches one region, and the regions of its nested states, for a
/// vertex.
fn find_vertex_in_region<'a>(region: &'a Region, container: &ID, vertex: &ID) -> (r: Option<
    &'a Vertex,
>)
    ensures
        match r {
            Some(v) => vertex_spec_id(*v) == vertex@,
            None => true,
        },
    decreases region,
{
    if region.id == *container {
        let n = region.vertices.len();
        let mut i: usize = 0;
        while i < n
            invariant
                n == region.vertices@.len(),
                i <= n,
            decreases n - i,
        {
            let v = &region.vertices[i];
            let matches_target = match v {
                Vertex::State(s) => s.id == *vertex,
                Vertex::PseudoState(p) => p.id == *vertex,
                Vertex::ConnectionPointReference(c) => c.id == *vertex,
            };
            if matches_target {
                return Some(v);
            }
            i = i + 1;
        }
        None
    } else {
        let n = region.vertices.len();
        let mut i: usize = 0;
        while i < n
            invariant
                n == region.vertices@.len(),
                i <= n,
            decreases n - i,
        {
            match &region.vertices[i] {
                Vertex::State(s) => {
                    proof {
                        assert(region.vertices@[i as int] == region.vertices[i as int]);
                    }
                    let found = find_vertex_in_regions(&s.regions, container, vertex);
                    match found {
                        Some(v) => {
                            return Some(v);
                        },
                        None => {},
                    }
                },
                _ => {},
            }
            i = i + 1;
        }
        None
    }
}

/// Walks a list of regions collecting every (region, vertex) identifier
/// pair.
fn index_regions(regions: &Vec<Region>) -> Vec<(ID, ID)>
    decreases regions,
{
    let mut out: Vec<(ID, ID)> = Vec::new();
    let n = regions.len();
    let mut i: usize = 0;
    while i < n
        invariant
            n == regions@.len(),
            i <= n,
        decreases n - i,
    {
        proof {
            assert(regions@[i as int] == regions[i as int]);
        }
        let mut sub = index_region(&regions[i]);
        out.append(&mut sub);
        i = i + 1;
    }
    out
}

/// Walks one region collecting every (region, vertex) identifier pair of
/// it and of the regions of its nested states.
fn index_region(region: &Region) -> Vec<(ID, ID)>
    decreases region,
{
    let mut out: Vec<(ID, ID)> = Vec::new();
    let n = region.vertices.len();
    let mut i: usize = 0;
    while i < n
        invariant
            n == region.vertices@.len(),
            i <= n,
        decreases n - i,
    {
        let v = &region.vertices[i];
        match v {
            Vertex::State(s) => {
                out.push((region.id.clone(), s.id.clone()));
                proof {
                    assert(region.vertices@[i as int] == region.vertices[i as int]);
                }
                let mut sub = index_regions(&s.regions);
                out.append(&mut sub);
            },
            Vertex::PseudoState(p) => {
                out.push((region.id.clone(), p.id.clone()));
            },
            Vertex::ConnectionPointReference(c) => {
                out.push((region.id.clone(), c.id.clone()));
            },
        }
        i = i + 1;
    }
    out
}

// ------------------------------------------------------------------------
// Transition
// ------------------------------------------------------------------------

impl Labeled for Transition {
    fn label(&self) -> &Option<String> {
        &self.label
    }

    fn set_label(&mut self, label: &str) {
        self.label = Some(label.to_owned());
    }

    fn unset_label(&mut self) {
        self.label = None;
    }
}

impl Contained for Transition {
    fn container(&self) -> &ID {
        &self.container
    }

    fn set_container(&mut self, container: ID) {
        self.container = container;
    }
}

impl Transition {
    /// The transition's kind.
    pub closed spec fn spec_kind(self) -> TransitionKind {
        self.kind
    }

    /// A fresh transition between the given vertices, inside the given
    /// region, of the default external kind.
    pub fn within(source: ID, target: ID, container: ID) -> (r: Self)
        ensures
            r.spec_kind() is External,
    {
        Transition {
            label: None,
            container,
            kind: TransitionKind::External,
            source,
            target,
            triggers: Vec::new(),
            guard: None,
            effect: None,
        }
    }

    /// The identifier of the source vertex.
    pub fn source(&self) -> ID {
        self.source.clone()
    }

    /// The identifier of the target vertex.
    pub fn target(&self) -> ID {
        self.target.clone()
    }

    /// Whether the transition carries triggers.
    pub fn has_triggers(&self) -> bool {
        self.triggers.len() > 0
    }

    /// The transition's triggers, in order.
    pub fn triggers(&self) -> &Vec<Trigger> {
        &self.triggers
    }

    /// Whether the transition carries a guard.
    pub fn has_guard(&self) -> bool {
        match &self.guard {
            Some(_) => true,
            None => false,
        }
    }

    /// The transition's guard, if any.
    pub fn guard(&self) -> &Option<ConstraintDesc> {
        &self.guard
    }

    /// Whether the transition carries an effect.
    pub fn has_effect(&self) -> bool {
        match &self.effect {
            Some(_) => true,
            None => false,
        }
    }

    /// The transition's effect, if any.
    pub fn effect(&self) -> &Option<BehaviorDesc> {
        &self.effect
    }

    /// The transition's kind.
    pub fn kind(&self) -> (r: TransitionKind)
        ensures
            r == self.spec_kind(),
    {
        self.kind
    }

    /// Whether the transition is internal.
    pub fn is_internal(&self) -> (r: bool)
        ensures
            r == (self.spec_kind() is Internal),
    {
        match self.kind {
            TransitionKind::Internal => true,
            _ => false,
        }
    }

    /// Whether the transition is local.
    pub fn is_local(&self) -> (r: bool)
        ensures
            r == (self.spec_kind() is Local),
    {
        match self.kind {
            TransitionKind::Local => true,
            _ => false,
        }
    }

    /// Whether the transition is external.
    pub fn is_external(&self) -> (r: bool)
        ensures
            r == (self.spec_kind() is External),
    {
        match self.kind {
            TransitionKind::External => true,
            _ => false,
        }
    }
}

// ------------------------------------------------------------------------
// Trigger
// ------------------------------------------------------------------------

impl Trigger {
    /// A trigger with no event value.
    pub fn new() -> Self {
        Trigger { event: None }
    }

    /// A trigger carrying the given event value.
    pub fn with_event(event: String) -> Self {
        Trigger { event: Some(event) }
    }

    /// The event value, if any.
    pub fn event(&self) -> &Option<String> {
        &self.event
    }
}

// ------------------------------------------------------------------------
// Vertex
// ------------------------------------------------------------------------

impl Vertex {
    /// The identifier of the underlying element.
    pub fn id(&self) -> (r: &ID)
        ensures
            r@ == vertex_spec_id(*self),
    {
        match self {
            Vertex::State(state) => &state.id,
            Vertex::PseudoState(pseudo_state) => &pseudo_state.id,
            Vertex::ConnectionPointReference(cpr) => &cpr.id,
        }
    }

    /// Whether this vertex is a full state.
    pub fn is_state(&self) -> (r: bool)
        ensures
            r == (self is State),
    {
        match self {
            Vertex::State(_) => true,
            _ => false,
        }
    }

    /// The underlying state, if this vertex is one.
    pub fn as_state(&self) -> (r: Option<&State>)
        ensures
            r is Some <==> self is State,
    {
        match self {
            Vertex::State(inner) => Some(inner),
            _ => None,
        }
    }

    /// Whether this vertex is a pseudo-state.
    pub fn is_pseudo_state(&self) -> (r: bool)
        ensures
            r == (self is PseudoState),
    {
        match self {
            Vertex::PseudoState(_) => true,
            _ => false,
        }
    }

    /// The underlying pseudo-state, if this vertex is one.
    pub fn as_pseudo_state(&self) -> (r: Option<&PseudoState>)
        ensures
            r is Some <==> self is PseudoState,
    {
        match self {
            Vertex::PseudoState(inner) => Some(inner),
            _ => None,
        }
    }

    /// Whether this vertex is a connection point reference.
    pub fn is_connection_point_reference(&self) -> (r: bool)
        ensures
            r == (self is ConnectionPointReference),
    {
        match self {
            Vertex::ConnectionPointReference(_) => true,
            _ => false,
        }
    }

    /// The underlying connection point reference, if this vertex is one.
    pub fn as_connection_point_reference(&self) -> (r: Option<&ConnectionPointReference>)
        ensures
            r is Some <==> self is ConnectionPointReference,
    {
        match self {
            Vertex::ConnectionPointReference(inner) => Some(inner),
            _ => None,
        }
    }
}

} // verus!
