//! A visitor over the metamodel for clients that want to review a model
//! read-only, without following ownership and hierarchy by hand: the
//! traversal walks machines, regions, vertices and transitions in order
//! and hands each element's parts to the visitor.

use vstd::prelude::*;

use crate::definition::id::ID;
use crate::definition::types::{BehaviorDesc, ConstraintDesc, PseudoState, PseudoStateKind, Region,
    State, StateMachine, TransitionKind, Trigger, Vertex};
use crate::error::ErrorKind;

verus! {

broadcast use vstd::seq::group_seq_axioms;

/// Resolves identifiers against the machine being visited.
pub struct Resolver<'a> {
    inner: &'a StateMachine,
}

impl<'a> Resolver<'a> {
    /// The machine being visited.
    pub closed spec fn spec_machine(self) -> StateMachine {
        *self.inner
    }

    /// Resolves a machine identifier. Only the visited machine itself is
    /// known.
    pub fn find_machine(&self, machine: &ID) -> (r: Option<&StateMachine>)
        ensures
            r is Some <==> machine@ == self.spec_machine().spec_id(),
    {
        self.inner.find_machine(machine)
    }

    /// Looks a vertex up by its containing region and its identifier. A
    /// returned vertex carries the requested identifier.
    pub fn find_vertex(&self, container: &ID, vertex: &ID) -> (r: Option<&Vertex>)
        ensures
            match r {
                Some(v) => crate::definition::impls::vertex_spec_id(*v) == vertex@,
                None => true,
            },
    {
        self.inner.find_vertex(container, vertex)
    }
}

/// The callbacks a model review implements. Every callback has an empty
/// default, so a visitor overrides only what it reads.
pub trait StateMachineVisitor {
    /// Called when the machine is entered.
    fn enter_state_machine(
        &mut self,
        resolver: &Resolver<'_>,
        id: &ID,
        label: &Option<String>,
        machine_states: &Vec<ID>,
        connection_points: &Vec<PseudoState>,
    ) {
    }

    /// Called when the machine is left.
    fn exit_state_machine(
        &mut self,
        resolver: &Resolver<'_>,
        id: &ID,
        label: &Option<String>,
        machine_states: &Vec<ID>,
        connection_points: &Vec<PseudoState>,
    ) {
    }

    /// Called when a state is entered.
    fn enter_state(
        &mut self,
        resolver: &Resolver<'_>,
        id: &ID,
        label: &Option<String>,
        region_count: usize,
        sub_machine: &Option<ID>,
        connections: &Vec<ID>,
        connection_points: &Vec<ID>,
        deferrable_triggers: &Vec<Trigger>,
        state_invariant: &Option<ConstraintDesc>,
        entry: &Option<BehaviorDesc>,
        do_activity: &Option<BehaviorDesc>,
        exit: &Option<BehaviorDesc>,
        is_final: bool,
    ) {
    }

    /// Called when a state is left.
    fn exit_state(
        &mut self,
        resolver: &Resolver<'_>,
        id: &ID,
        label: &Option<String>,
        region_count: usize,
        sub_machine: &Option<ID>,
        connections: &Vec<ID>,
        connection_points: &Vec<ID>,
        deferrable_triggers: &Vec<Trigger>,
        state_invariant: &Option<ConstraintDesc>,
        entry: &Option<BehaviorDesc>,
        do_activity: &Option<BehaviorDesc>,
        exit: &Option<BehaviorDesc>,
        is_final: bool,
    ) {
    }

    /// Called when a region is entered; `last` marks the owner's last
    /// region.
    fn enter_region(&mut self, resolver: &Resolver<'_>, id: &ID, label: &Option<String>, last: bool) {
    }

    /// Called when a region is left; `last` marks the owner's last region.
    fn exit_region(&mut self, resolver: &Resolver<'_>, id: &ID, label: &Option<String>, last: bool) {
    }

    /// Called on each connection point reference.
    fn connection_point_reference(
        &mut self,
        resolver: &Resolver<'_>,
        id: &ID,
        label: &Option<String>,
        entry: &Vec<ID>,
        exit: &Vec<ID>,
        state: &Option<ID>,
    ) {
    }

    /// Called on each pseudo-state.
    fn pseudo_state(
        &mut self,
        resolver: &Resolver<'_>,
        id: &ID,
        label: &Option<String>,
        kind: &PseudoStateKind,
    ) {
    }

    /// Called on each transition of a region.
    fn transition(
        &mut self,
        resolver: &Resolver<'_>,
        label: &Option<String>,
        kind: TransitionKind,
        source: &ID,
        target: &ID,
        triggers: &Vec<Trigger>,
        guard: &Option<ConstraintDesc>,
        effect: &Option<BehaviorDesc>,
    ) {
    }
}

/// Walks a machine: the machine itself, then each of its regions in order,
/// each region's vertices (recursing into states), then its transitions.
/// The machine is checked first; a machine without regions is refused.
pub fn visit_state_machine<V: StateMachineVisitor>(machine: &StateMachine, visitor: &mut V) -> (r:
    Result<(), ErrorKind>)
    ensures
        r is Ok <==> machine.spec_region_count() > 0,
{
    if machine.region_count() == 0 {
        return Err(ErrorKind::ChartStatesEmpty);
    }
    let resolver = Resolver { inner: machine };
    visitor.enter_state_machine(
        &resolver,
        machine.id_ref(),
        machine.label_ref(),
        machine.sub_machine_states(),
        machine.connection_points(),
    );
    let regions = machine.regions_ref();
    let num_regions = regions.len();
    let mut i: usize = 0;
    while i < num_regions
        invariant
            num_regions == regions@.len(),
            i <= num_regions,
        decreases num_regions - i,
    {
        proof {
            assert(regions@[i as int] == regions[i as int]);
        }
        visit_region(&regions[i], &resolver, visitor, i == num_regions - 1);
        i = i + 1;
    }
    visitor.exit_state_machine(
        &resolver,
        machine.id_ref(),
        machine.label_ref(),
        machine.sub_machine_states(),
        machine.connection_points(),
    );
    Ok(())
}

/// Walks one state: the state itself, then each of its regions.
fn visit_state<V: StateMachineVisitor>(state: &State, resolver: &Resolver<'_>, visitor: &mut V)
    decreases state,
{
    visitor.enter_state(
        resolver,
        &state.id,
        &state.label,
        state.regions.len(),
        &state.sub_machine,
        &state.connections,
        &state.connection_points,
        &state.deferrable_triggers,
        &state.invariant,
        &state.entry,
        &state.do_activity,
        &state.exit,
        state.final_state,
    );
    let num_regions = state.regions.len();
    let mut i: usize = 0;
    while i < num_regions
        invariant
            num_regions == state.regions@.len(),
            i <= num_regions,
        decreases num_regions - i,
    {
        proof {
            assert(state.regions@[i as int] == state.regions[i as int]);
        }
        visit_region(&state.regions[i], resolver, visitor, i == num_regions - 1);
        i = i + 1;
    }
    visitor.exit_state(
        resolver,
        &state.id,
        &state.label,
        state.regions.len(),
        &state.sub_machine,
        &state.connections,
        &state.connection_points,
        &state.deferrable_triggers,
        &state.invariant,
        &state.entry,
        &state.do_activity,
        &state.exit,
        state.final_state,
    );
}

/// Walks one region: its vertices (recursing into full states), then its
/// transitions.
fn visit_region<V: StateMachineVisitor>(
    region: &Region,
    resolver: &Resolver<'_>,
    visitor: &mut V,
    last: bool,
)
    decreases region,
{
    visitor.enter_region(resolver, &region.id, &region.label, last);
    let n = region.vertices.len();
    let mut i: usize = 0;
    while i < n
        invariant
            n == region.vertices@.len(),
            i <= n,
        decreases n - i,
    {
        match &region.vertices[i] {
            Vertex::State(state) => {
                proof {
                    assert(region.vertices@[i as int] == region.vertices[i as int]);
                }
                visit_state(state, resolver, visitor);
            },
            Vertex::PseudoState(pseudo_state) => {
                visitor.pseudo_state(
                    resolver,
                    &pseudo_state.id,
                    &pseudo_state.label,
                    &pseudo_state.kind,
                );
            },
            Vertex::ConnectionPointReference(cpr) => {
                visitor.connection_point_reference(
                    resolver,
                    &cpr.id,
                    &cpr.label,
                    &cpr.entry,
                    &cpr.exit,
                    &cpr.state,
                );
            },
        }
        i = i + 1;
    }
    let m = region.transitions.len();
    let mut j: usize = 0;
    while j < m
        invariant
            m == region.transitions@.len(),
            j <= m,
        decreases m - j,
    {
        let t = &region.transitions[j];
        visitor.transition(
            resolver,
            &t.label,
            t.kind(),
            &t.source,
            &t.target,
            &t.triggers,
            &t.guard,
            &t.effect,
        );
        j = j + 1;
    }
    visitor.exit_region(resolver, &region.id, &region.label, last);
}

} // verus!
