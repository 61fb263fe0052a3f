//! The descriptive state machine model: a flat, id-keyed table of states,
//! each owning its transitions, together with the structural validator that
//! checks a model against the well-formedness rules of the formalism.

use vstd::prelude::*;

use crate::definition::behavior::{Action, Condition};
use crate::error::ErrorKind;
use crate::tag::StateID;

pub mod behavior;
pub mod builder;
pub mod id;
pub mod impls;
pub mod types;

verus! {

/// The phase marker carried by every action invocation: which part of the
/// machine's behaviour the action belongs to.
#[derive(Clone, Copy, Debug, PartialEq, Eq, Structural)]
pub enum InternalEvent {
    /// Machine-level initialisation, before the initial state is entered.
    Init,
    /// Machine-level completion, when every active state is final.
    Done,
    /// A state's entry action list.
    Entry,
    /// A state's body (do-activity) action list.
    Run,
    /// A state's exit action list.
    Exit,
    /// A transition's own action list.
    Transition,
}

/// The kind of a state: leaf, hierarchical, concurrent, or pseudo-state.
#[derive(Debug)]
pub enum StateKind {
    /// A leaf state with no children.
    Atomic,
    /// A state with exactly one region; entering it enters the nominated
    /// initial child.
    Composite { child_states: Vec<StateID>, initial: StateID },
    /// A state whose children are all entered simultaneously, each child an
    /// independently active region.
    Orthogonal { child_states: Vec<StateID> },
    /// A pseudo-state that stands for the last-active descendant(s) of its
    /// owner; entering it enters the remembered states instead of the
    /// nominal initial child.
    History { deep: bool, state: Vec<StateID> },
    /// The pseudo-entry marker targeted by an initial pointer.
    Initial,
    /// A terminal marker; it may not have outgoing transitions.
    Final,
}

/// The sequence of identifier texts named by a list of state identifiers.
pub open spec fn ids_view(ids: Seq<StateID>) -> Seq<Seq<char>> {
    ids.map_values(|t: StateID| t@)
}

/// A guarded, action-bearing edge between states. A transition without an
/// event is a completion transition, evaluated when its source is entered; a
/// transition without a target is an internal self-loop.
#[derive(Debug)]
pub struct Transition {
    label: Option<String>,
    event: Option<u64>,
    target: Option<StateID>,
    internal: bool,
    conditions: Vec<Condition>,
    actions: Vec<Action>,
}

impl Transition {
    /// The label attached to this transition, if any.
    pub closed spec fn spec_label(self) -> Option<Seq<char>> {
        match self.label {
            Some(l) => Some(l@),
            None => None,
        }
    }

    /// The event this transition waits for; absent for a completion
    /// transition.
    pub closed spec fn spec_event(self) -> Option<u64> {
        self.event
    }

    /// The identifier of the target state, absent for a self-loop.
    pub closed spec fn spec_target(self) -> Option<StateID> {
        self.target
    }

    /// Whether the transition is internal: it never crosses its source's
    /// exit/entry boundary, even when a target is set.
    pub closed spec fn spec_internal(self) -> bool {
        self.internal
    }

    /// The guard conjunction: the transition is enabled only when every
    /// condition holds.
    pub closed spec fn spec_conditions(self) -> Seq<Condition> {
        self.conditions@
    }

    /// The actions run once the transition is the confirmed unique winner.
    pub closed spec fn spec_actions(self) -> Seq<Action> {
        self.actions@
    }

    /// A transition from its parts.
    pub fn new(
        label: Option<String>,
        event: Option<u64>,
        target: Option<StateID>,
        internal: bool,
        conditions: Vec<Condition>,
        actions: Vec<Action>,
    ) -> (r: Self)
        ensures
            r.spec_label() == (match label {
                Some(l) => Some(l@),
                None => None::<Seq<char>>,
            }),
            r.spec_event() == event,
            r.spec_target() == target,
            r.spec_internal() == internal,
            r.spec_conditions() == conditions@,
            r.spec_actions() == actions@,
    {
        Transition { label, event, target, internal, conditions, actions }
    }

    /// The label attached to this transition, if any.
    pub fn label(&self) -> (r: Option<String>)
        ensures
            match r {
                Some(l) => self.spec_label() == Some(l@),
                None => self.spec_label() is None,
            },
    {
        match &self.label {
            Some(l) => Some(l.clone()),
            None => None,
        }
    }

    /// The event this transition waits for, if any.
    pub fn event(&self) -> (r: Option<u64>)
        ensures
            r == self.spec_event(),
    {
        match &self.event {
            Some(e) => Some(*e),
            None => None,
        }
    }

    /// The identifier of the target state, if any.
    pub fn target_state_id(&self) -> (r: Option<StateID>)
        ensures
            match r {
                Some(t) => self.spec_target() matches Some(u) && u@ == t@,
                None => self.spec_target() is None,
            },
    {
        match &self.target {
            Some(t) => Some(t.clone()),
            None => None,
        }
    }

    /// Whether the transition is internal.
    pub fn is_internal(&self) -> (r: bool)
        ensures
            r == self.spec_internal(),
    {
        self.internal
    }

    /// Whether the transition carries at least one guard condition.
    pub fn is_conditional(&self) -> (r: bool)
        ensures
            r == (self.spec_conditions().len() > 0),
    {
        self.conditions.len() > 0
    }

    /// The guard conjunction, in declaration order.
    pub fn conditions(&self) -> (r: &Vec<Condition>)
        ensures
            r@ == self.spec_conditions(),
    {
        &self.conditions
    }

    /// Whether the transition carries at least one action.
    pub fn has_actions(&self) -> (r: bool)
        ensures
            r == (self.spec_actions().len() > 0),
    {
        self.actions.len() > 0
    }

    /// The transition's own actions, in declaration order.
    pub fn actions(&self) -> (r: &Vec<Action>)
        ensures
            r@ == self.spec_actions(),
    {
        &self.actions
    }
}

/// A state record: an identifier, a kind, the owned transition list, and
/// the ordered entry, body and exit action lists.
#[derive(Debug)]
pub struct State {
    id: StateID,
    label: Option<String>,
    kind: StateKind,
    transitions: Vec<Transition>,
    parent: Option<StateID>,
    on_entry: Vec<Action>,
    on_run: Vec<Action>,
    on_exit: Vec<Action>,
}

impl State {
    /// The identifier that is this state's identity.
    pub closed spec fn spec_id(self) -> StateID {
        self.id
    }

    /// The label attached to this state, if any.
    pub closed spec fn spec_label(self) -> Option<Seq<char>> {
        match self.label {
            Some(l) => Some(l@),
            None => None,
        }
    }

    /// The state's kind.
    pub closed spec fn spec_kind(self) -> StateKind {
        self.kind
    }

    /// The state's outgoing transitions, in declaration order.
    pub closed spec fn spec_transitions(self) -> Seq<Transition> {
        self.transitions@
    }

    /// The identifier of the state's parent, if any.
    pub closed spec fn spec_parent(self) -> Option<StateID> {
        self.parent
    }

    /// The entry action list.
    pub closed spec fn spec_entry_actions(self) -> Seq<Action> {
        self.on_entry@
    }

    /// The body (do-activity) action list.
    pub closed spec fn spec_body_actions(self) -> Seq<Action> {
        self.on_run@
    }

    /// The exit action list.
    pub closed spec fn spec_exit_actions(self) -> Seq<Action> {
        self.on_exit@
    }

    /// A state from its identity and kind, with no transitions or actions.
    pub fn new(id: StateID, label: Option<String>, kind: StateKind) -> (r: Self)
        ensures
            r.spec_id()@ == id@,
            r.spec_label() == (match label {
                Some(l) => Some(l@),
                None => None::<Seq<char>>,
            }),
            r.spec_kind() == kind,
            r.spec_transitions() == Seq::<Transition>::empty(),
            r.spec_parent() is None,
            r.spec_entry_actions() == Seq::<Action>::empty(),
            r.spec_body_actions() == Seq::<Action>::empty(),
            r.spec_exit_actions() == Seq::<Action>::empty(),
    {
        let r = State {
            id,
            label,
            kind,
            transitions: Vec::new(),
            parent: None,
            on_entry: Vec::new(),
            on_run: Vec::new(),
            on_exit: Vec::new(),
        };
        proof {
            assert(r.spec_transitions() =~= Seq::<Transition>::empty());
            assert(r.spec_entry_actions() =~= Seq::<Action>::empty());
            assert(r.spec_body_actions() =~= Seq::<Action>::empty());
            assert(r.spec_exit_actions() =~= Seq::<Action>::empty());
        }
        r
    }

    /// The state's identifier.
    pub fn id(&self) -> (r: StateID)
        ensures
            r@ == self.spec_id()@,
    {
        self.id.clone()
    }

    /// The label attached to this state, if any.
    pub fn label(&self) -> (r: Option<String>)
        ensures
            match r {
                Some(l) => self.spec_label() == Some(l@),
                None => self.spec_label() is None,
            },
    {
        match &self.label {
            Some(l) => Some(l.clone()),
            None => None,
        }
    }

    /// The state's kind.
    pub fn kind(&self) -> (r: &StateKind)
        ensures
            *r == self.spec_kind(),
    {
        &self.kind
    }

    /// Appends a transition to the state's transition list.
    pub fn add_transition(&mut self, transition: Transition)
        ensures
            final(self).spec_transitions() == old(self).spec_transitions().push(transition),
            final(self).spec_id() == old(self).spec_id(),
            final(self).spec_label() == old(self).spec_label(),
            final(self).spec_kind() == old(self).spec_kind(),
            final(self).spec_parent() == old(self).spec_parent(),
            final(self).spec_entry_actions() == old(self).spec_entry_actions(),
            final(self).spec_body_actions() == old(self).spec_body_actions(),
            final(self).spec_exit_actions() == old(self).spec_exit_actions(),
    {
        self.transitions.push(transition);
    }

    /// Sets the state's parent identifier.
    pub fn set_parent(&mut self, parent: StateID)
        ensures
            final(self).spec_parent() == Some(parent),
            final(self).spec_transitions() == old(self).spec_transitions(),
            final(self).spec_id() == old(self).spec_id(),
            final(self).spec_label() == old(self).spec_label(),
            final(self).spec_kind() == old(self).spec_kind(),
            final(self).spec_entry_actions() == old(self).spec_entry_actions(),
            final(self).spec_body_actions() == old(self).spec_body_actions(),
            final(self).spec_exit_actions() == old(self).spec_exit_actions(),
    {
        self.parent = Some(parent);
    }

    /// Appends an action to the entry action list.
    pub fn add_entry_action(&mut self, action: Action)
        ensures
            final(self).spec_entry_actions() == old(self).spec_entry_actions().push(action),
            final(self).spec_body_actions() == old(self).spec_body_actions(),
            final(self).spec_exit_actions() == old(self).spec_exit_actions(),
            final(self).spec_transitions() == old(self).spec_transitions(),
            final(self).spec_id() == old(self).spec_id(),
            final(self).spec_label() == old(self).spec_label(),
            final(self).spec_kind() == old(self).spec_kind(),
            final(self).spec_parent() == old(self).spec_parent(),
    {
        self.on_entry.push(action);
    }

    /// Appends an action to the body action list.
    pub fn add_body_action(&mut self, action: Action)
        ensures
            final(self).spec_body_actions() == old(self).spec_body_actions().push(action),
            final(self).spec_entry_actions() == old(self).spec_entry_actions(),
            final(self).spec_exit_actions() == old(self).spec_exit_actions(),
            final(self).spec_transitions() == old(self).spec_transitions(),
            final(self).spec_id() == old(self).spec_id(),
            final(self).spec_label() == old(self).spec_label(),
            final(self).spec_kind() == old(self).spec_kind(),
            final(self).spec_parent() == old(self).spec_parent(),
    {
        self.on_run.push(action);
    }

    /// Appends an action to the exit action list.
    pub fn add_exit_action(&mut self, action: Action)
        ensures
            final(self).spec_exit_actions() == old(self).spec_exit_actions().push(action),
            final(self).spec_entry_actions() == old(self).spec_entry_actions(),
            final(self).spec_body_actions() == old(self).spec_body_actions(),
            final(self).spec_transitions() == old(self).spec_transitions(),
            final(self).spec_id() == old(self).spec_id(),
            final(self).spec_label() == old(self).spec_label(),
            final(self).spec_kind() == old(self).spec_kind(),
            final(self).spec_parent() == old(self).spec_parent(),
    {
        self.on_exit.push(action);
    }

    /// Whether the state has outgoing transitions.
    pub fn has_transitions(&self) -> (r: bool)
        ensures
            r == (self.spec_transitions().len() > 0),
    {
        self.transitions.len() > 0
    }

    /// The outgoing transitions, in declaration order.
    pub fn transitions(&self) -> (r: &Vec<Transition>)
        ensures
            r@ == self.spec_transitions(),
    {
        &self.transitions
    }

    /// Whether the state names a parent.
    pub fn has_parent(&self) -> (r: bool)
        ensures
            r == (self.spec_parent() is Some),
    {
        match &self.parent {
            Some(_) => true,
            None => false,
        }
    }

    /// The identifier of the state's parent, if any.
    pub fn parent_state_id(&self) -> (r: Option<StateID>)
        ensures
            match r {
                Some(p) => self.spec_parent() matches Some(q) && q@ == p@,
                None => self.spec_parent() is None,
            },
    {
        match &self.parent {
            Some(p) => Some(p.clone()),
            None => None,
        }
    }

    /// Whether the state is composite or orthogonal with at least one
    /// child.
    pub fn has_children(&self) -> (r: bool)
        ensures
            r == (match self.spec_kind() {
                StateKind::Composite { child_states, .. } => child_states@.len() > 0,
                StateKind::Orthogonal { child_states } => child_states@.len() > 0,
                _ => false,
            }),
    {
        match &self.kind {
            StateKind::Composite { child_states, .. } => child_states.len() > 0,
            StateKind::Orthogonal { child_states } => child_states.len() > 0,
            _ => false,
        }
    }

    /// The child state identifiers of a composite or orthogonal state.
    pub fn child_state_ids(&self) -> (r: Option<&Vec<StateID>>)
        ensures
            match r {
                Some(ids) => (match self.spec_kind() {
                    StateKind::Composite { child_states, .. } => ids@ == child_states@,
                    StateKind::Orthogonal { child_states } => ids@ == child_states@,
                    _ => false,
                }),
                None => !(self.spec_kind() is Composite) && !(self.spec_kind() is Orthogonal),
            },
    {
        match &self.kind {
            StateKind::Composite { child_states, .. } => Some(child_states),
            StateKind::Orthogonal { child_states } => Some(child_states),
            _ => None,
        }
    }

    /// The nominated initial child of a composite state.
    pub fn initial_child_id(&self) -> (r: Option<StateID>)
        ensures
            match r {
                Some(c) => self.spec_kind() matches StateKind::Composite { initial, .. }
                    && initial@ == c@,
                None => !(self.spec_kind() is Composite),
            },
    {
        match &self.kind {
            StateKind::Composite { initial, .. } => Some(initial.clone()),
            _ => None,
        }
    }

    /// Whether the state has entry actions.
    pub fn has_entry_actions(&self) -> (r: bool)
        ensures
            r == (self.spec_entry_actions().len() > 0),
    {
        self.on_entry.len() > 0
    }

    /// The entry action list, in order.
    pub fn entry_actions(&self) -> (r: &Vec<Action>)
        ensures
            r@ == self.spec_entry_actions(),
    {
        &self.on_entry
    }

    /// Whether the state has body actions.
    pub fn has_body_actions(&self) -> (r: bool)
        ensures
            r == (self.spec_body_actions().len() > 0),
    {
        self.on_run.len() > 0
    }

    /// The body action list, in order.
    pub fn body_actions(&self) -> (r: &Vec<Action>)
        ensures
            r@ == self.spec_body_actions(),
    {
        &self.on_run
    }

    /// Whether the state has exit actions.
    pub fn has_exit_actions(&self) -> (r: bool)
        ensures
            r == (self.spec_exit_actions().len() > 0),
    {
        self.on_exit.len() > 0
    }

    /// The exit action list, in order.
    pub fn exit_actions(&self) -> (r: &Vec<Action>)
        ensures
            r@ == self.spec_exit_actions(),
    {
        &self.on_exit
    }
}

/// The model: a flat table of states keyed by identifier, the machine's
/// initial pointer, and the machine-level init and done action lists.
#[derive(Debug)]
pub struct StateMachine {
    label: Option<String>,
    states: Vec<State>,
    initial: StateID,
    on_init: Vec<Action>,
    on_done: Vec<Action>,
}

/// The index of the first state in the table whose identifier text is
/// `idv`, searching from position `i`.
pub open spec fn find_index_from(states: Seq<State>, idv: Seq<char>, i: int) -> Option<int>
    decreases states.len() - i,
{
    if i < 0 || i >= states.len() {
        None
    } else if states[i].spec_id()@ == idv {
        Some(i)
    } else {
        find_index_from(states, idv, i + 1)
    }
}

/// The state record named by identifier text `idv`, if any.
pub open spec fn find_state(m: StateMachine, idv: Seq<char>) -> Option<State> {
    match find_index_from(m.spec_states(), idv, 0) {
        Some(i) => Some(m.spec_states()[i]),
        None => None,
    }
}

impl StateMachine {
    /// The label attached to the machine, if any.
    pub closed spec fn spec_label(self) -> Option<Seq<char>> {
        match self.label {
            Some(l) => Some(l@),
            None => None,
        }
    }

    /// The machine's state table, in insertion order.
    pub closed spec fn spec_states(self) -> Seq<State> {
        self.states@
    }

    /// The machine's initial pointer.
    pub closed spec fn spec_initial(self) -> StateID {
        self.initial
    }

    /// The machine-level initialisation action list.
    pub closed spec fn spec_init_actions(self) -> Seq<Action> {
        self.on_init@
    }

    /// The machine-level completion action list.
    pub closed spec fn spec_done_actions(self) -> Seq<Action> {
        self.on_done@
    }

    /// An empty machine with the given initial pointer.
    pub fn new(label: Option<String>, initial: StateID) -> (r: Self)
        ensures
            r.spec_label() == (match label {
                Some(l) => Some(l@),
                None => None::<Seq<char>>,
            }),
            r.spec_states() == Seq::<State>::empty(),
            r.spec_initial()@ == initial@,
            r.spec_init_actions() == Seq::<Action>::empty(),
            r.spec_done_actions() == Seq::<Action>::empty(),
    {
        let r = StateMachine {
            label,
            states: Vec::new(),
            initial,
            on_init: Vec::new(),
            on_done: Vec::new(),
        };
        proof {
            assert(r.spec_states() =~= Seq::<State>::empty());
            assert(r.spec_init_actions() =~= Seq::<Action>::empty());
            assert(r.spec_done_actions() =~= Seq::<Action>::empty());
        }
        r
    }

    /// The label attached to the machine, if any.
    pub fn label(&self) -> (r: Option<String>)
        ensures
            match r {
                Some(l) => self.spec_label() == Some(l@),
                None => self.spec_label() is None,
            },
    {
        match &self.label {
            Some(l) => Some(l.clone()),
            None => None,
        }
    }

    /// The machine's initial pointer.
    pub fn initial_state_id(&self) -> (r: StateID)
        ensures
            r@ == self.spec_initial()@,
    {
        self.initial.clone()
    }

    /// Re-points the machine's initial pointer.
    pub fn set_initial(&mut self, initial: StateID)
        ensures
            final(self).spec_initial() == initial,
            final(self).spec_states() == old(self).spec_states(),
            final(self).spec_label() == old(self).spec_label(),
            final(self).spec_init_actions() == old(self).spec_init_actions(),
            final(self).spec_done_actions() == old(self).spec_done_actions(),
    {
        self.initial = initial;
    }

    /// The number of states in the table.
    pub fn state_count(&self) -> (r: usize)
        ensures
            r == self.spec_states().len(),
    {
        self.states.len()
    }

    /// Whether a state with the given identifier exists.
    pub fn has_state(&self, id: &StateID) -> (r: bool)
        ensures
            r == (find_state(*self, id@) is Some),
    {
        match self.get_state(id) {
            Some(_) => true,
            None => false,
        }
    }

    /// Looks a state up by identifier.
    pub fn get_state(&self, id: &StateID) -> (r: Option<&State>)
        ensures
            match r {
                Some(s) => find_state(*self, id@) == Some(*s),
                None => find_state(*self, id@) is None,
            },
    {
        let n = self.states.len();
        let mut i: usize = 0;
        while i < n
            invariant
                n == self.states.len(),
                i <= n,
                find_index_from(self.spec_states(), id@, 0) == find_index_from(
                    self.spec_states(),
                    id@,
                    i as int,
                ),
        decreases n - i,
        {
            if self.states[i].id == *id {
                return Some(&self.states[i]);
            }
            i = i + 1;
        }
        None
    }

    /// Inserts a state into the table. A state with the same identifier is
    /// replaced; otherwise the state is appended.
    pub fn add_state(&mut self, state: State)
        ensures
            final(self).spec_states() == (match find_index_from(
                old(self).spec_states(),
                state.spec_id()@,
                0,
            ) {
                Some(i) => old(self).spec_states().update(i, state),
                None => old(self).spec_states().push(state),
            }),
            final(self).spec_label() == old(self).spec_label(),
            final(self).spec_initial() == old(self).spec_initial(),
            final(self).spec_init_actions() == old(self).spec_init_actions(),
            final(self).spec_done_actions() == old(self).spec_done_actions(),
    {
        let n = self.states.len();
        let mut i: usize = 0;
        while i < n
            invariant
                *self == *old(self),
                n == self.states.len(),
                i <= n,
                find_index_from(self.spec_states(), state.spec_id()@, 0) == find_index_from(
                    self.spec_states(),
                    state.spec_id()@,
                    i as int,
                ),
        decreases n - i,
        {
            if self.states[i].id == state.id {
                proof {
                    assert(find_index_from(self.spec_states(), state.spec_id()@, i as int)
                        == Some(i as int));
                }
                self.states[i] = state;
                return ;
            }
            i = i + 1;
        }
        proof {
            assert(find_index_from(self.spec_states(), state.spec_id()@, n as int) is None);
        }
        self.states.push(state);
    }

    /// Appends an action to the machine-level initialisation list.
    pub fn add_init_action(&mut self, action: Action)
        ensures
            final(self).spec_init_actions() == old(self).spec_init_actions().push(action),
            final(self).spec_done_actions() == old(self).spec_done_actions(),
            final(self).spec_states() == old(self).spec_states(),
            final(self).spec_label() == old(self).spec_label(),
            final(self).spec_initial() == old(self).spec_initial(),
    {
        self.on_init.push(action);
    }

    /// Appends an action to the machine-level completion list.
    pub fn add_done_action(&mut self, action: Action)
        ensures
            final(self).spec_done_actions() == old(self).spec_done_actions().push(action),
            final(self).spec_init_actions() == old(self).spec_init_actions(),
            final(self).spec_states() == old(self).spec_states(),
            final(self).spec_label() == old(self).spec_label(),
            final(self).spec_initial() == old(self).spec_initial(),
    {
        self.on_done.push(action);
    }

    /// Whether the machine has initialisation actions.
    pub fn has_init_actions(&self) -> (r: bool)
        ensures
            r == (self.spec_init_actions().len() > 0),
    {
        self.on_init.len() > 0
    }

    /// The machine-level initialisation action list.
    pub fn init_actions(&self) -> (r: &Vec<Action>)
        ensures
            r@ == self.spec_init_actions(),
    {
        &self.on_init
    }

    /// Whether the machine has completion actions.
    pub fn has_done_actions(&self) -> (r: bool)
        ensures
            r == (self.spec_done_actions().len() > 0),
    {
        self.on_done.len() > 0
    }

    /// The machine-level completion action list.
    pub fn done_actions(&self) -> (r: &Vec<Action>)
        ensures
            r@ == self.spec_done_actions(),
    {
        &self.on_done
    }
}

/// Whether some transition of the state waits for the event.
pub open spec fn state_accepts(s: State, e: u64) -> bool {
    exists|j: int|
        0 <= j < s.spec_transitions().len() && (#[trigger] s.spec_transitions()[j]).spec_event()
            == Some(e)
}

/// Whether some transition of some state of the machine waits for the
/// event.
pub open spec fn chart_accepts(m: StateMachine, e: u64) -> bool {
    exists|i: int|
        0 <= i < m.spec_states().len() && state_accepts(#[trigger] m.spec_states()[i], e)
}

/// Whether a vector holds the given event value.
pub(crate) fn vec_contains_u64(v: &Vec<u64>, x: u64) -> (r: bool)
    ensures
        r == v@.contains(x),
{
    let n = v.len();
    let mut i: usize = 0;
    while i < n
        invariant
            n == v@.len(),
            i <= n,
            forall|k: int| 0 <= k < i ==> v@[k] != x,
        decreases n - i,
    {
        if v[i] == x {
            return true;
        }
        i = i + 1;
    }
    false
}

impl State {
    /// The set of events this state's transitions wait for, without
    /// duplicates: exactly the events for which [`state_accepts`] holds.
    pub fn accepts(&self) -> (r: Vec<u64>)
        ensures
            r@.no_duplicates(),
            forall|x: int| 0 <= x < r@.len() ==> state_accepts(*self, #[trigger] r@[x]),
            forall|j: int|
                0 <= j < self.spec_transitions().len() ==> (match (
                #[trigger] self.spec_transitions()[j]).spec_event() {
                    Some(e) => r@.contains(e),
                    None => true,
                }),
    {
        let n = self.transitions.len();
        let mut r: Vec<u64> = Vec::new();
        let mut j: usize = 0;
        while j < n
            invariant
                n == self.spec_transitions().len(),
                j <= n,
                r@.no_duplicates(),
                forall|x: int| 0 <= x < r@.len() ==> state_accepts(*self, #[trigger] r@[x]),
                forall|k: int|
                    0 <= k < j ==> (match (#[trigger] self.spec_transitions()[k]).spec_event() {
                        Some(e) => r@.contains(e),
                        None => true,
                    }),
            decreases n - j,
        {
            match &self.transitions[j].event {
                Some(e) => {
                    if !vec_contains_u64(&r, *e) {
                        let ghost r_old = r@;
                        r.push(*e);
                        proof {
                            assert(state_accepts(*self, r@[r@.len() - 1]));
                            assert forall|k: int|
                                0 <= k < j implies (match (
                            #[trigger] self.spec_transitions()[k]).spec_event() {
                                Some(e2) => r@.contains(e2),
                                None => true,
                            }) by {
                                match self.spec_transitions()[k].spec_event() {
                                    Some(e2) => {
                                        assert(r_old.contains(e2));
                                        let w = choose|y: int|
                                            0 <= y < r_old.len() && r_old[y] == e2;
                                        assert(r@[w] == e2);
                                    },
                                    None => {},
                                }
                            }
                        }
                    }
                },
                None => {},
            }
            j = j + 1;
        }
        r
    }
}

impl StateMachine {
    /// The set of events any state of the machine waits for, without
    /// duplicates: exactly the events for which [`chart_accepts`] holds.
    pub fn accepts(&self) -> (r: Vec<u64>)
        ensures
            r@.no_duplicates(),
            forall|x: int| 0 <= x < r@.len() ==> chart_accepts(*self, #[trigger] r@[x]),
            forall|i: int|
                0 <= i < self.spec_states().len() ==> (forall|j: int|
                    0 <= j < (#[trigger] self.spec_states()[i]).spec_transitions().len() ==> (match (
                    #[trigger] self.spec_states()[i].spec_transitions()[j]).spec_event() {
                        Some(e) => r@.contains(e),
                        None => true,
                    })),
    {
        let n = self.states.len();
        let mut r: Vec<u64> = Vec::new();
        let mut i: usize = 0;
        while i < n
            invariant
                n == self.spec_states().len(),
                i <= n,
                r@.no_duplicates(),
                forall|x: int| 0 <= x < r@.len() ==> chart_accepts(*self, #[trigger] r@[x]),
                forall|k: int|
                    0 <= k < i ==> (forall|j: int|
                        0 <= j < (#[trigger] self.spec_states()[k]).spec_transitions().len() ==> (
                        match (#[trigger] self.spec_states()[k].spec_transitions()[j]).spec_event() {
                            Some(e) => r@.contains(e),
                            None => true,
                        })),
            decreases n - i,
        {
            let sub = self.states[i].accepts();
            let m = sub.len();
            let mut y: usize = 0;
            while y < m
                invariant
                    n == self.spec_states().len(),
                    i < n,
                    m == sub@.len(),
                    y <= m,
                    r@.no_duplicates(),
                    forall|x: int| 0 <= x < sub@.len() ==> state_accepts(
                        self.spec_states()[i as int],
                        #[trigger] sub@[x],
                    ),
                    forall|x: int| 0 <= x < r@.len() ==> chart_accepts(*self, #[trigger] r@[x]),
                    forall|x: int| 0 <= x < y ==> r@.contains(#[trigger] sub@[x]),
                    forall|k: int|
                        0 <= k < i ==> (forall|j: int|
                            0 <= j < (#[trigger] self.spec_states()[k]).spec_transitions().len()
                                ==> (match (
                            #[trigger] self.spec_states()[k].spec_transitions()[j]).spec_event() {
                                Some(e) => r@.contains(e),
                                None => true,
                            })),
                decreases m - y,
            {
                if !vec_contains_u64(&r, sub[y]) {
                    let ghost r_old = r@;
                    r.push(sub[y]);
                    proof {
                        assert(chart_accepts(*self, r@[r@.len() - 1]));
                        assert forall|e: u64| r_old.contains(e) implies r@.contains(e) by {
                            let w = choose|z: int| 0 <= z < r_old.len() && r_old[z] == e;
                            assert(r@[w] == e);
                        }
                    }
                } else {
                    proof {
                        assert(r@.contains(sub@[y as int]));
                    }
                }
                proof {
                    assert forall|x: int| 0 <= x < y + 1 implies r@.contains(
                        #[trigger] sub@[x],
                    ) by {}
                }
                y = y + 1;
            }
            proof {
                assert forall|j: int|
                    0 <= j < self.spec_states()[i as int].spec_transitions().len() implies (match (
                #[trigger] self.spec_states()[i as int].spec_transitions()[j]).spec_event() {
                    Some(e) => r@.contains(e),
                    None => true,
                }) by {
                    match self.spec_states()[i as int].spec_transitions()[j].spec_event() {
                        Some(e) => {
                            assert(sub@.contains(e));
                            let w = choose|z: int| 0 <= z < sub@.len() && sub@[z] == e;
                            assert(r@.contains(sub@[w]));
                        },
                        None => {},
                    }
                }
            }
            i = i + 1;
        }
        r
    }
}

/// Whether the machine holds at least one final state.
pub open spec fn has_final(m: StateMachine) -> bool {
    exists|i: int|
        0 <= i < m.spec_states().len() && (#[trigger] m.spec_states()[i]).spec_kind() is Final
}

/// The defect found in the transitions of one state, starting at position
/// `i`, or success: an empty transition is malformed, and a present target
/// must name an existing state.
pub open spec fn validate_transitions_from_spec(
    m: StateMachine,
    ts: Seq<Transition>,
    i: int,
) -> Result<(), ErrorKind>
    decreases ts.len() - i,
{
    if i < 0 || i >= ts.len() {
        Ok(())
    } else {
        let t = ts[i];
        if t.spec_event() is None && t.spec_target() is None && t.spec_conditions().len() == 0 {
            Err(ErrorKind::TransitionTrigger)
        } else {
            match t.spec_target() {
                Some(tg) => if find_state(m, tg@) is None {
                    Err(ErrorKind::TransitionTargetState)
                } else {
                    validate_transitions_from_spec(m, ts, i + 1)
                },
                None => validate_transitions_from_spec(m, ts, i + 1),
            }
        }
    }
}

/// The structural defect of one state, or success: composite and orthogonal
/// states need children, a composite's nominated initial child must exist
/// with the initial kind, and a final state may not have transitions.
pub open spec fn validate_state_spec(m: StateMachine, s: State) -> Result<(), ErrorKind> {
    match s.spec_kind() {
        StateKind::Composite { child_states, initial } => {
            if child_states@.len() == 0 {
                Err(ErrorKind::StateChildStatesEmpty)
            } else {
                match find_state(m, initial@) {
                    None => Err(ErrorKind::StateInitialState),
                    Some(c) => if !(c.spec_kind() is Initial) {
                        Err(ErrorKind::StateInitialState)
                    } else {
                        validate_transitions_from_spec(m, s.spec_transitions(), 0)
                    },
                }
            }
        },
        StateKind::Orthogonal { child_states } => {
            if child_states@.len() == 0 {
                Err(ErrorKind::StateChildStatesEmpty)
            } else {
                validate_transitions_from_spec(m, s.spec_transitions(), 0)
            }
        },
        StateKind::Final => {
            if s.spec_transitions().len() > 0 {
                Err(ErrorKind::FinalStateTransitions)
            } else {
                validate_transitions_from_spec(m, s.spec_transitions(), 0)
            }
        },
        _ => validate_transitions_from_spec(m, s.spec_transitions(), 0),
    }
}

/// The first structural defect among the states from position `i` on, or
/// success.
pub open spec fn validate_states_from_spec(m: StateMachine, i: int) -> Result<(), ErrorKind>
    decreases m.spec_states().len() - i,
{
    if i < 0 || i >= m.spec_states().len() {
        Ok(())
    } else {
        match validate_state_spec(m, m.spec_states()[i]) {
            Err(e) => Err(e),
            Ok(()) => validate_states_from_spec(m, i + 1),
        }
    }
}

/// The outcome of validating a machine: the first structural defect in
/// checking order, or success.
pub open spec fn validate_spec(m: StateMachine) -> Result<(), ErrorKind> {
    if m.spec_states().len() == 0 {
        Err(ErrorKind::ChartStatesEmpty)
    } else {
        match find_state(m, m.spec_initial()@) {
            None => Err(ErrorKind::ChartInvalidInitialStateName),
            Some(s0) => if !(s0.spec_kind() is Initial) {
                Err(ErrorKind::ChartInvalidInitialStateKind)
            } else if !has_final(m) {
                Err(ErrorKind::ChartNoFinalState)
            } else {
                validate_states_from_spec(m, 0)
            },
        }
    }
}

/// A transition is well-formed when it carries at least one of an event, a
/// target, or a guard, and a present target names an existing state.
pub open spec fn transition_ok(m: StateMachine, t: Transition) -> bool {
    &&& (t.spec_event() is Some || t.spec_target() is Some || t.spec_conditions().len() > 0)
    &&& (match t.spec_target() {
        Some(tg) => find_state(m, tg@) is Some,
        None => true,
    })
}

/// A state is well-formed when its kind's structural rules hold and each of
/// its transitions is well-formed.
pub open spec fn state_ok(m: StateMachine, s: State) -> bool {
    &&& (match s.spec_kind() {
        StateKind::Composite { child_states, initial } => child_states@.len() > 0 && (match
            find_state(m, initial@) {
            Some(c) => c.spec_kind() is Initial,
            None => false,
        }),
        StateKind::Orthogonal { child_states } => child_states@.len() > 0,
        StateKind::Final => s.spec_transitions().len() == 0,
        _ => true,
    })
    &&& forall|j: int|
        0 <= j < s.spec_transitions().len() ==> transition_ok(m, #[trigger] s.spec_transitions()[j])
}

/// The conjunction of the structural invariants of a model: a non-empty
/// state table, an initial pointer naming a state of the initial kind, at
/// least one final state, and every state well-formed.
pub open spec fn machine_invariants(m: StateMachine) -> bool {
    &&& m.spec_states().len() > 0
    &&& (match find_state(m, m.spec_initial()@) {
        Some(s0) => s0.spec_kind() is Initial,
        None => false,
    })
    &&& has_final(m)
    &&& forall|i: int|
        0 <= i < m.spec_states().len() ==> state_ok(m, #[trigger] m.spec_states()[i])
}

/// Checking the transitions of a state succeeds exactly when each one is
/// well-formed.
proof fn lemma_validate_transitions_iff(m: StateMachine, ts: Seq<Transition>, i: int)
    requires
        0 <= i <= ts.len(),
    ensures
        validate_transitions_from_spec(m, ts, i) is Ok <==> forall|j: int|
            i <= j < ts.len() ==> transition_ok(m, #[trigger] ts[j]),
    decreases ts.len() - i,
{
    if i < ts.len() {
        lemma_validate_transitions_iff(m, ts, i + 1);
    }
}

/// Checking one state succeeds exactly when it is well-formed.
proof fn lemma_validate_state_iff(m: StateMachine, s: State)
    ensures
        validate_state_spec(m, s) is Ok <==> state_ok(m, s),
{
    lemma_validate_transitions_iff(m, s.spec_transitions(), 0);
}

/// Checking the states from position `i` succeeds exactly when each of
/// them is well-formed.
proof fn lemma_validate_states_iff(m: StateMachine, i: int)
    requires
        0 <= i <= m.spec_states().len(),
    ensures
        validate_states_from_spec(m, i) is Ok <==> forall|k: int|
            i <= k < m.spec_states().len() ==> state_ok(m, #[trigger] m.spec_states()[k]),
    decreases m.spec_states().len() - i,
{
    if i < m.spec_states().len() {
        lemma_validate_state_iff(m, m.spec_states()[i]);
        lemma_validate_states_iff(m, i + 1);
    }
}

/// Validation succeeds exactly when the model satisfies the structural
/// invariants of the formalism: every transition target exists, the one
/// initial pointer names an initial state, a final state exists, composite
/// and orthogonal states have children with a valid nominated initial
/// child, final states have no outgoing transitions, and no transition is
/// empty.
pub proof fn lemma_validate_ok_iff_invariants(m: StateMachine)
    ensures
        validate_spec(m) is Ok <==> machine_invariants(m),
{
    if m.spec_states().len() > 0 {
        lemma_validate_states_iff(m, 0);
    }
}

impl StateMachine {
    /// Checks one state's structural rules against this machine.
    fn validate_one_state(&self, s: &State) -> (r: Result<(), ErrorKind>)
        ensures
            r == validate_state_spec(*self, *s),
    {
        match &s.kind {
            StateKind::Composite { child_states, initial } => {
                if child_states.len() == 0 {
                    return Err(ErrorKind::StateChildStatesEmpty);
                }
                match self.get_state(initial) {
                    None => {
                        return Err(ErrorKind::StateInitialState);
                    },
                    Some(c) => {
                        match &c.kind {
                            StateKind::Initial => {},
                            _ => {
                                return Err(ErrorKind::StateInitialState);
                            },
                        }
                    },
                }
            },
            StateKind::Orthogonal { child_states } => {
                if child_states.len() == 0 {
                    return Err(ErrorKind::StateChildStatesEmpty);
                }
            },
            StateKind::Final => {
                if s.transitions.len() > 0 {
                    return Err(ErrorKind::FinalStateTransitions);
                }
            },
            _ => {},
        }
        self.validate_transition_list(&s.transitions)
    }

    /// Checks each transition of one state against this machine.
    fn validate_transition_list(&self, ts: &Vec<Transition>) -> (r: Result<(), ErrorKind>)
        ensures
            r == validate_transitions_from_spec(*self, ts@, 0),
    {
        let n = ts.len();
        let mut i: usize = 0;
        while i < n
            invariant
                n == ts@.len(),
                i <= n,
                validate_transitions_from_spec(*self, ts@, 0) == validate_transitions_from_spec(
                    *self,
                    ts@,
                    i as int,
                ),
            decreases n - i,
        {
            let t = &ts[i];
            let empty_event = match &t.event {
                Some(_) => false,
                None => true,
            };
            let empty_target = match &t.target {
                Some(_) => false,
                None => true,
            };
            if empty_event && empty_target && t.conditions.len() == 0 {
                return Err(ErrorKind::TransitionTrigger);
            }
            match &t.target {
                Some(tg) => {
                    if !self.has_state(tg) {
                        return Err(ErrorKind::TransitionTargetState);
                    }
                },
                None => {},
            }
            i = i + 1;
        }
        Ok(())
    }

    /// Validates the model: a single pure pass over the state table that
    /// reports the first structural defect, in checking order, or succeeds.
    /// Exactly the models accepted here satisfy the structural invariants
    /// of the formalism (see [`lemma_validate_ok_iff_invariants`]).
    pub fn validate(&self) -> (r: Result<(), ErrorKind>)
        ensures
            r == validate_spec(*self),
            r is Ok <==> machine_invariants(*self),
    {
        proof {
            lemma_validate_ok_iff_invariants(*self);
        }
        if self.states.len() == 0 {
            return Err(ErrorKind::ChartStatesEmpty);
        }
        match self.get_state(&self.initial) {
            None => {
                return Err(ErrorKind::ChartInvalidInitialStateName);
            },
            Some(s0) => {
                match &s0.kind {
                    StateKind::Initial => {},
                    _ => {
                        return Err(ErrorKind::ChartInvalidInitialStateKind);
                    },
                }
            },
        }
        let n = self.states.len();
        let mut i: usize = 0;
        let mut found_final = false;
        while i < n
            invariant
                n == self.states@.len(),
                i <= n,
                validate_spec(*self) is Ok <==> machine_invariants(*self),
                found_final <==> exists|k: int|
                    0 <= k < i && (#[trigger] self.spec_states()[k]).spec_kind() is Final,
            decreases n - i,
        {
            match &self.states[i].kind {
                StateKind::Final => {
                    found_final = true;
                },
                _ => {},
            }
            i = i + 1;
        }
        if !found_final {
            return Err(ErrorKind::ChartNoFinalState);
        }
        let mut i: usize = 0;
        while i < n
            invariant
                n == self.states@.len(),
                i <= n,
                validate_spec(*self) is Ok <==> machine_invariants(*self),
                validate_spec(*self) == validate_states_from_spec(*self, 0),
                validate_states_from_spec(*self, 0) == validate_states_from_spec(*self, i as int),
            decreases n - i,
        {
            match self.validate_one_state(&self.states[i]) {
                Err(e) => {
                    proof {
                        assert(validate_states_from_spec(*self, i as int) == Err::<
                            (),
                            ErrorKind,
                        >(e));
                    }
                    return Err(e);
                },
                Ok(()) => {},
            }
            i = i + 1;
        }
        Ok(())
    }
}

} // verus!
