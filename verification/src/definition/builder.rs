//! A fluent construction API that assembles a model before validation:
//! builders for machines, states and transitions. Builders are consumed as
//! they are chained and produce a shared, frozen model at the end.

use std::rc::Rc;

use vstd::prelude::*;

use crate::base::id::{spec_validate_id, valid_id_chars};
use crate::definition::behavior::{Action, Condition};
use crate::definition::{find_index_from, ids_view, State, StateKind, StateMachine, Transition};
use crate::tag::StateID;

verus! {

/// Assembles a whole state machine model.
#[derive(Debug)]
pub struct StateMachineBuilder {
    label: Option<String>,
    states: Vec<StateBuilder>,
    initial: StateID,
}

/// Assembles one state, its transitions, its actions and its children.
#[derive(Debug)]
pub struct StateBuilder {
    id: StateID,
    label: Option<String>,
    kind: StateKind,
    transitions: Vec<TransitionBuilder>,
    child_states: Vec<StateBuilder>,
    on_entry: Vec<Action>,
    body: Vec<Action>,
    on_exit: Vec<Action>,
}

/// Assembles one transition.
#[derive(Debug)]
pub struct TransitionBuilder {
    label: Option<String>,
    event: Option<u64>,
    target: Option<StateID>,
    internal: bool,
    conditions: Vec<Condition>,
    actions: Vec<Action>,
}

/// A found table position always lies within the table.
proof fn lemma_find_index_bounds(states: Seq<State>, idv: Seq<char>, i: int)
    requires
        0 <= i,
    ensures
        find_index_from(states, idv, i) matches Some(j) ==> i <= j < states.len(),
    decreases states.len() - i,
{
    if i < states.len() {
        lemma_find_index_bounds(states, idv, i + 1);
    }
}

/// The position of the first state builder whose identifier text is `idv`,
/// searching from position `i`.
pub open spec fn find_builder_from(states: Seq<StateBuilder>, idv: Seq<char>, i: int) -> Option<
    int,
>
    decreases states.len() - i,
{
    if i < 0 || i >= states.len() {
        None
    } else if states[i].spec_id() == idv {
        Some(i)
    } else {
        find_builder_from(states, idv, i + 1)
    }
}

impl StateMachineBuilder {
    /// The machine label chosen so far.
    pub closed spec fn spec_label(self) -> Option<Seq<char>> {
        match self.label {
            Some(l) => Some(l@),
            None => None,
        }
    }

    /// The initial pointer chosen so far.
    pub closed spec fn spec_initial(self) -> Seq<char> {
        self.initial@
    }

    /// The state builders added so far, in order.
    pub closed spec fn spec_states(self) -> Seq<StateBuilder> {
        self.states@
    }

    /// How many top-level states have been added.
    pub open spec fn spec_state_count(self) -> int {
        self.spec_states().len() as int
    }

    /// An empty machine builder. Until an initial state is added, the
    /// initial pointer carries the designated invalid identifier.
    pub fn new() -> (r: Self)
        ensures
            r.spec_label() is None,
            r.spec_states() == Seq::<StateBuilder>::empty(),
            r.spec_initial() == "<invalid-state-tag>"@,
    {
        let r = StateMachineBuilder {
            label: None,
            states: Vec::new(),
            initial: StateID::invalid(),
        };
        proof {
            assert(r.spec_states() =~= Seq::<StateBuilder>::empty());
        }
        r
    }

    /// Removes the machine label.
    pub fn unlabeled(self) -> (r: Self)
        ensures
            r.spec_label() is None,
            r.spec_initial() == self.spec_initial(),
            r.spec_states() == self.spec_states(),
    {
        StateMachineBuilder { label: None, ..self }
    }

    /// Sets the machine label.
    pub fn labeled(self, label: &str) -> (r: Self)
        ensures
            r.spec_label() == Some(label@),
            r.spec_initial() == self.spec_initial(),
            r.spec_states() == self.spec_states(),
    {
        StateMachineBuilder { label: Some(label.to_owned()), ..self }
    }

    /// Adds a state. A state with the same identifier replaces the earlier
    /// one; otherwise the state is appended. Adding a state of the initial
    /// kind points the machine's initial pointer at it.
    #[verifier::loop_isolation(false)]
    pub fn state(self, state: StateBuilder) -> (r: Self)
        ensures
            r.spec_label() == self.spec_label(),
            (state.spec_kind() is Initial ==> r.spec_initial() == state.spec_id()),
            (!(state.spec_kind() is Initial) ==> r.spec_initial() == self.spec_initial()),
            r.spec_states() == (match find_builder_from(self.spec_states(), state.spec_id(), 0) {
                Some(i) => self.spec_states().update(i, state),
                None => self.spec_states().push(state),
            }),
    {
        let StateMachineBuilder { label, mut states, initial } = self;
        let ghost orig = states@;
        let is_initial = match &state.kind {
            StateKind::Initial => true,
            _ => false,
        };
        let new_initial = if is_initial {
            state.id.clone()
        } else {
            initial
        };
        let n = states.len();
        let mut i: usize = 0;
        while i < n
            invariant
                n == states@.len(),
                i <= n,
                states@ == orig,
                find_builder_from(orig, state.spec_id(), 0) == find_builder_from(
                    orig,
                    state.spec_id(),
                    i as int,
                ),
            decreases n - i,
        {
            if states[i].id == state.id {
                proof {
                    assert(find_builder_from(orig, state.spec_id(), i as int) == Some(i as int));
                }
                states[i] = state;
                return StateMachineBuilder { label, states, initial: new_initial };
            }
            i = i + 1;
        }
        proof {
            assert(find_builder_from(orig, state.spec_id(), n as int) is None);
        }
        states.push(state);
        StateMachineBuilder { label, states, initial: new_initial }
    }

    /// Builds the frozen, shared model: every added state, and every child
    /// of one, becomes a record of the flat state table, in order, a state
    /// replacing any earlier record under the same identifier. The table
    /// is empty exactly when no state was added.
    pub fn build(self) -> (r: Rc<StateMachine>)
        ensures
            (*r).spec_label() == self.spec_label(),
            (*r).spec_initial()@ == self.spec_initial(),
            (*r).spec_init_actions() == Seq::<Action>::empty(),
            (*r).spec_done_actions() == Seq::<Action>::empty(),
            ((*r).spec_states().len() > 0 <==> self.spec_states().len() > 0),
    {
        let ghost chosen_label = self.spec_label();
        let ghost chosen_initial = self.spec_initial();
        let ghost total = self.spec_states().len() as int;
        let StateMachineBuilder { label, mut states, initial } = self;
        let mut machine = StateMachine::new(label, initial);
        proof {
            assert(machine.spec_states() =~= Seq::<State>::empty());
        }
        let ghost mut processed: int = 0;
        while states.len() > 0
            invariant
                machine.spec_label() == chosen_label,
                machine.spec_initial()@ == chosen_initial,
                machine.spec_init_actions() == Seq::<Action>::empty(),
                machine.spec_done_actions() == Seq::<Action>::empty(),
                0 <= processed,
                processed + states@.len() == total,
                (processed > 0 ==> machine.spec_states().len() >= 1),
                (processed == 0 ==> machine.spec_states().len() == 0),
            decreases states@.len(),
        {
            let sb = states.remove(0);
            add_built_state(&mut machine, sb, None);
            proof {
                processed = processed + 1;
            }
        }
        Rc::new(machine)
    }
}

/// Turns one state builder into a state record of the table, then its
/// children into further records, each naming this state as parent.
#[verifier::loop_isolation(false)]
fn add_built_state(machine: &mut StateMachine, sb: StateBuilder, parent: Option<StateID>)
    ensures
        final(machine).spec_label() == old(machine).spec_label(),
        final(machine).spec_initial() == old(machine).spec_initial(),
        final(machine).spec_init_actions() == old(machine).spec_init_actions(),
        final(machine).spec_done_actions() == old(machine).spec_done_actions(),
        final(machine).spec_states().len() >= old(machine).spec_states().len(),
        final(machine).spec_states().len() >= 1,
    decreases sb,
{
    let ghost sb_ghost = sb;
    let StateBuilder {
        id,
        label,
        kind,
        mut transitions,
        mut child_states,
        mut on_entry,
        mut body,
        mut on_exit,
    } = sb;
    let own_id = id.clone();
    let mut state = State::new(id, label, kind);
    match parent {
        Some(p) => {
            state.set_parent(p);
        },
        None => {},
    }
    while on_entry.len() > 0
        decreases on_entry@.len(),
    {
        let a = on_entry.remove(0);
        state.add_entry_action(a);
    }
    while body.len() > 0
        decreases body@.len(),
    {
        let a = body.remove(0);
        state.add_body_action(a);
    }
    while on_exit.len() > 0
        decreases on_exit@.len(),
    {
        let a = on_exit.remove(0);
        state.add_exit_action(a);
    }
    let mut full_state = state;
    while transitions.len() > 0
        decreases transitions@.len(),
    {
        let tb = transitions.remove(0);
        full_state.add_transition(tb.build());
    }
    let ghost pre_table = machine.spec_states();
    let ghost new_id = full_state.spec_id()@;
    machine.add_state(full_state);
    proof {
        lemma_find_index_bounds(pre_table, new_id, 0);
    }
    let ghost mut consumed: int = 0;
    while child_states.len() > 0
        invariant
            machine.spec_label() == old(machine).spec_label(),
            machine.spec_initial() == old(machine).spec_initial(),
            machine.spec_init_actions() == old(machine).spec_init_actions(),
            machine.spec_done_actions() == old(machine).spec_done_actions(),
            machine.spec_states().len() >= old(machine).spec_states().len(),
            machine.spec_states().len() >= 1,
            0 <= consumed,
            consumed + child_states@.len() == sb_ghost.child_states@.len(),
            forall|x: int|
                0 <= x < child_states@.len() ==> child_states@[x] == sb_ghost.child_states@[
                    consumed + x],
        decreases child_states@.len(),
    {
        let cb = child_states.remove(0);
        proof {
            assert(cb == sb_ghost.child_states@[consumed]);
            vstd::std_specs::vec::axiom_vec_index_decreases(sb_ghost.child_states, consumed);
            assert(decreases_to!(sb_ghost => sb_ghost.child_states));
            assert(decreases_to!(sb_ghost => cb));
            consumed = consumed + 1;
        }
        let p = own_id.clone();
        add_built_state(machine, cb, Some(p));
    }
}

/// A freshly made state builder: no label, no transitions, no children and
/// no actions yet.
pub open spec fn fresh_state_builder(r: StateBuilder) -> bool {
    &&& r.spec_label() is None
    &&& r.spec_transitions() == Seq::<TransitionBuilder>::empty()
    &&& r.spec_children() == Seq::<StateBuilder>::empty()
    &&& r.spec_entry_actions() == Seq::<Action>::empty()
    &&& r.spec_body_actions() == Seq::<Action>::empty()
    &&& r.spec_exit_actions() == Seq::<Action>::empty()
}

impl StateBuilder {
    /// The identifier text chosen for this state.
    pub closed spec fn spec_id(self) -> Seq<char> {
        self.id@
    }

    /// The kind chosen for this state.
    pub closed spec fn spec_kind(self) -> StateKind {
        self.kind
    }

    /// The label chosen so far.
    pub closed spec fn spec_label(self) -> Option<Seq<char>> {
        match self.label {
            Some(l) => Some(l@),
            None => None,
        }
    }

    /// The transitions attached so far, in order.
    pub closed spec fn spec_transitions(self) -> Seq<TransitionBuilder> {
        self.transitions@
    }

    /// The child state builders attached so far, in order.
    pub closed spec fn spec_children(self) -> Seq<StateBuilder> {
        self.child_states@
    }

    /// The entry actions attached so far, in order.
    pub closed spec fn spec_entry_actions(self) -> Seq<Action> {
        self.on_entry@
    }

    /// The body actions attached so far, in order.
    pub closed spec fn spec_body_actions(self) -> Seq<Action> {
        self.body@
    }

    /// The exit actions attached so far, in order.
    pub closed spec fn spec_exit_actions(self) -> Seq<Action> {
        self.on_exit@
    }

    /// A leaf state under a fresh random identifier.
    pub fn atomic() -> (r: Self)
        ensures
            r.spec_kind() is Atomic,
            valid_id_chars(r.spec_id()),
            fresh_state_builder(r),
    {
        Self::make(StateKind::Atomic, None)
    }

    /// A leaf state under the given identifier, which must be valid.
    pub fn atomic_with_id(id: &str) -> (r: Self)
        requires
            spec_validate_id(id@) is Ok,
        ensures
            r.spec_kind() is Atomic,
            r.spec_id() == id@,
            fresh_state_builder(r),
    {
        Self::make(StateKind::Atomic, Some(Self::parse_id(id)))
    }

    /// A composite state (one region) under a fresh random identifier.
    pub fn compound() -> (r: Self)
        ensures
            r.spec_kind() matches StateKind::Composite { child_states, initial } && child_states@
                == Seq::<StateID>::empty() && initial@ == "<invalid-state-tag>"@,
            valid_id_chars(r.spec_id()),
            fresh_state_builder(r),
    {
        let r = Self::make(
            StateKind::Composite { child_states: Vec::new(), initial: StateID::invalid() },
            None,
        );
        r
    }

    /// A composite state under the given identifier, which must be valid.
    pub fn compound_with_id(id: &str) -> (r: Self)
        requires
            spec_validate_id(id@) is Ok,
        ensures
            r.spec_kind() matches StateKind::Composite { child_states, initial } && child_states@
                == Seq::<StateID>::empty() && initial@ == "<invalid-state-tag>"@,
            r.spec_id() == id@,
            fresh_state_builder(r),
    {
        let r = Self::make(
            StateKind::Composite { child_states: Vec::new(), initial: StateID::invalid() },
            Some(Self::parse_id(id)),
        );
        r
    }

    /// An orthogonal state under a fresh random identifier.
    pub fn parallel() -> (r: Self)
        ensures
            r.spec_kind() matches StateKind::Orthogonal { child_states } && child_states@ == Seq::<
                StateID,
            >::empty(),
            valid_id_chars(r.spec_id()),
            fresh_state_builder(r),
    {
        let r = Self::make(StateKind::Orthogonal { child_states: Vec::new() }, None);
        r
    }

    /// An orthogonal state under the given identifier, which must be
    /// valid.
    pub fn parallel_with_id(id: &str) -> (r: Self)
        requires
            spec_validate_id(id@) is Ok,
        ensures
            r.spec_kind() matches StateKind::Orthogonal { child_states } && child_states@ == Seq::<
                StateID,
            >::empty(),
            r.spec_id() == id@,
            fresh_state_builder(r),
    {
        let r = Self::make(
            StateKind::Orthogonal { child_states: Vec::new() },
            Some(Self::parse_id(id)),
        );
        r
    }

    /// A shallow history state under a fresh random identifier.
    pub fn shallow_history() -> (r: Self)
        ensures
            r.spec_kind() matches StateKind::History { deep, state } && !deep && state@ == Seq::<
                StateID,
            >::empty(),
            valid_id_chars(r.spec_id()),
            fresh_state_builder(r),
    {
        let r = Self::make(StateKind::History { deep: false, state: Vec::new() }, None);
        r
    }

    /// A shallow history state under the given identifier, which must be
    /// valid.
    pub fn shallow_history_with_id(id: &str) -> (r: Self)
        requires
            spec_validate_id(id@) is Ok,
        ensures
            r.spec_kind() matches StateKind::History { deep, state } && !deep && state@ == Seq::<
                StateID,
            >::empty(),
            r.spec_id() == id@,
            fresh_state_builder(r),
    {
        let r = Self::make(
            StateKind::History { deep: false, state: Vec::new() },
            Some(Self::parse_id(id)),
        );
        r
    }

    /// A deep history state under a fresh random identifier.
    pub fn deep_history() -> (r: Self)
        ensures
            r.spec_kind() matches StateKind::History { deep, state } && deep && state@ == Seq::<
                StateID,
            >::empty(),
            valid_id_chars(r.spec_id()),
            fresh_state_builder(r),
    {
        let r = Self::make(StateKind::History { deep: true, state: Vec::new() }, None);
        r
    }

    /// A deep history state under the given identifier, which must be
    /// valid.
    pub fn deep_history_with_id(id: &str) -> (r: Self)
        requires
            spec_validate_id(id@) is Ok,
        ensures
            r.spec_kind() matches StateKind::History { deep, state } && deep && state@ == Seq::<
                StateID,
            >::empty(),
            r.spec_id() == id@,
            fresh_state_builder(r),
    {
        let r = Self::make(
            StateKind::History { deep: true, state: Vec::new() },
            Some(Self::parse_id(id)),
        );
        r
    }

    /// An initial marker under a fresh random identifier.
    pub fn initial() -> (r: Self)
        ensures
            r.spec_kind() is Initial,
            valid_id_chars(r.spec_id()),
            fresh_state_builder(r),
    {
        Self::make(StateKind::Initial, None)
    }

    /// An initial marker under the given identifier, which must be valid.
    pub fn initial_with_id(id: &str) -> (r: Self)
        requires
            spec_validate_id(id@) is Ok,
        ensures
            r.spec_kind() is Initial,
            r.spec_id() == id@,
            fresh_state_builder(r),
    {
        Self::make(StateKind::Initial, Some(Self::parse_id(id)))
    }

    /// A final marker under a fresh random identifier.
    pub fn final_state() -> (r: Self)
        ensures
            r.spec_kind() is Final,
            valid_id_chars(r.spec_id()),
            fresh_state_builder(r),
    {
        Self::make(StateKind::Final, None)
    }

    /// A final marker under the given identifier, which must be valid.
    pub fn final_with_id(id: &str) -> (r: Self)
        requires
            spec_validate_id(id@) is Ok,
        ensures
            r.spec_kind() is Final,
            r.spec_id() == id@,
            fresh_state_builder(r),
    {
        Self::make(StateKind::Final, Some(Self::parse_id(id)))
    }

    /// Parses an identifier known to be valid.
    fn parse_id(id: &str) -> (r: StateID)
        requires
            spec_validate_id(id@) is Ok,
        ensures
            r@ == id@,
    {
        match StateID::new(id) {
            Ok(i) => i,
            Err(_) => {
                proof {
                    assert(false);
                }
                StateID::invalid()
            },
        }
    }

    /// A state of the given kind, under the given identifier or a fresh
    /// random one drawn under the `state` prefix.
    fn make(kind: StateKind, id: Option<StateID>) -> (r: Self)
        ensures
            r.spec_kind() == kind,
            (match id {
                Some(i) => r.spec_id() == i@,
                None => valid_id_chars(r.spec_id()),
            }),
            fresh_state_builder(r),
    {
        let id = match id {
            None => {
                match StateID::random_with_prefix("state") {
                    Ok(i) => i,
                    Err(_) => StateID::random(),
                }
            },
            Some(id) => id,
        };
        let r = StateBuilder {
            id,
            label: None,
            kind,
            transitions: Vec::new(),
            child_states: Vec::new(),
            on_entry: Vec::new(),
            body: Vec::new(),
            on_exit: Vec::new(),
        };
        proof {
            assert(r.spec_transitions() =~= Seq::<TransitionBuilder>::empty());
            assert(r.spec_children() =~= Seq::<StateBuilder>::empty());
            assert(r.spec_entry_actions() =~= Seq::<Action>::empty());
            assert(r.spec_body_actions() =~= Seq::<Action>::empty());
            assert(r.spec_exit_actions() =~= Seq::<Action>::empty());
        }
        r
    }

    /// Removes the state label.
    pub fn unlabeled(self) -> (r: Self)
        ensures
            r.spec_label() is None,
            r.spec_id() == self.spec_id(),
            r.spec_kind() == self.spec_kind(),
            r.spec_transitions() == self.spec_transitions(),
            r.spec_children() == self.spec_children(),
            r.spec_entry_actions() == self.spec_entry_actions(),
            r.spec_body_actions() == self.spec_body_actions(),
            r.spec_exit_actions() == self.spec_exit_actions(),
    {
        StateBuilder { label: None, ..self }
    }

    /// Sets the state label.
    pub fn labeled(self, label: &str) -> (r: Self)
        ensures
            r.spec_label() == Some(label@),
            r.spec_id() == self.spec_id(),
            r.spec_kind() == self.spec_kind(),
            r.spec_transitions() == self.spec_transitions(),
            r.spec_children() == self.spec_children(),
            r.spec_entry_actions() == self.spec_entry_actions(),
            r.spec_body_actions() == self.spec_body_actions(),
            r.spec_exit_actions() == self.spec_exit_actions(),
    {
        StateBuilder { label: Some(label.to_owned()), ..self }
    }

    /// Reads as prose in a chain; changes nothing.
    pub fn and(self) -> (r: Self)
        ensures
            r == self,
    {
        self
    }

    /// Reads as prose in a chain; changes nothing.
    pub fn then(self) -> (r: Self)
        ensures
            r == self,
    {
        self
    }

    /// Appends an entry action.
    pub fn on_entry(self, action: Action) -> (r: Self)
        ensures
            r.spec_entry_actions() == self.spec_entry_actions().push(action),
            r.spec_id() == self.spec_id(),
            r.spec_kind() == self.spec_kind(),
            r.spec_label() == self.spec_label(),
            r.spec_transitions() == self.spec_transitions(),
            r.spec_children() == self.spec_children(),
            r.spec_body_actions() == self.spec_body_actions(),
            r.spec_exit_actions() == self.spec_exit_actions(),
    {
        let mut s = self;
        s.on_entry.push(action);
        s
    }

    /// Appends a body (do-activity) action.
    pub fn action(self, action: Action) -> (r: Self)
        ensures
            r.spec_body_actions() == self.spec_body_actions().push(action),
            r.spec_id() == self.spec_id(),
            r.spec_kind() == self.spec_kind(),
            r.spec_label() == self.spec_label(),
            r.spec_transitions() == self.spec_transitions(),
            r.spec_children() == self.spec_children(),
            r.spec_entry_actions() == self.spec_entry_actions(),
            r.spec_exit_actions() == self.spec_exit_actions(),
    {
        let mut s = self;
        s.body.push(action);
        s
    }

    /// Appends an exit action.
    pub fn on_exit(self, action: Action) -> (r: Self)
        ensures
            r.spec_exit_actions() == self.spec_exit_actions().push(action),
            r.spec_id() == self.spec_id(),
            r.spec_kind() == self.spec_kind(),
            r.spec_label() == self.spec_label(),
            r.spec_transitions() == self.spec_transitions(),
            r.spec_children() == self.spec_children(),
            r.spec_entry_actions() == self.spec_entry_actions(),
            r.spec_body_actions() == self.spec_body_actions(),
    {
        let mut s = self;
        s.on_exit.push(action);
        s
    }

    /// Appends a transition. A transition pointed back at its source (see
    /// [`TransitionBuilder::back_to_self`]) is re-targeted at this state;
    /// every other part of it is kept as built.
    pub fn transition(self, transition: TransitionBuilder) -> (r: Self)
        ensures
            r.spec_id() == self.spec_id(),
            r.spec_kind() == self.spec_kind(),
            r.spec_label() == self.spec_label(),
            r.spec_children() == self.spec_children(),
            r.spec_entry_actions() == self.spec_entry_actions(),
            r.spec_body_actions() == self.spec_body_actions(),
            r.spec_exit_actions() == self.spec_exit_actions(),
            r.spec_transitions().len() == self.spec_transitions().len() + 1,
            forall|k: int|
                0 <= k < self.spec_transitions().len() ==> r.spec_transitions()[k]
                    == self.spec_transitions()[k],
            ({
                let t = r.spec_transitions().last();
                &&& t.spec_event() == transition.spec_event()
                &&& t.spec_internal() == transition.spec_internal()
                &&& t.spec_label() == transition.spec_label()
                &&& t.spec_conditions() == transition.spec_conditions()
                &&& t.spec_actions() == transition.spec_actions()
                &&& (if transition.spec_is_self_loop_placeholder() {
                    t.spec_target() matches Some(u) && u@ == self.spec_id()
                } else {
                    t.spec_target() == transition.spec_target()
                })
            }),
    {
        let mut s = self;
        let mut t = transition;
        let is_self_loop = match &t.target {
            Some(tg) => *tg == StateID::invalid(),
            None => false,
        };
        if is_self_loop {
            t.target = Some(s.id.clone());
        }
        s.transitions.push(t);
        s
    }

    /// Appends a child state. The child's identifier is also recorded in
    /// the child list of a composite or orthogonal kind.
    pub fn child(self, state: StateBuilder) -> (r: Self)
        ensures
            r.spec_id() == self.spec_id(),
            r.spec_label() == self.spec_label(),
            r.spec_transitions() == self.spec_transitions(),
            r.spec_entry_actions() == self.spec_entry_actions(),
            r.spec_body_actions() == self.spec_body_actions(),
            r.spec_exit_actions() == self.spec_exit_actions(),
            r.spec_children() == self.spec_children().push(state),
            (match self.spec_kind() {
                StateKind::Composite { child_states, initial } => r.spec_kind()
                    matches StateKind::Composite { child_states: c2, initial: i2 } && ids_view(c2@)
                    == ids_view(child_states@).push(state.spec_id()) && i2 == initial,
                StateKind::Orthogonal { child_states } => r.spec_kind()
                    matches StateKind::Orthogonal { child_states: c2 } && ids_view(c2@) == ids_view(
                    child_states@,
                ).push(state.spec_id()),
                _ => r.spec_kind() == self.spec_kind(),
            }),
    {
        let mut s = self;
        let child_id = state.id.clone();
        match &mut s.kind {
            StateKind::Composite { child_states, .. } => {
                let ghost before = child_states@;
                child_states.push(child_id);
                proof {
                    assert(ids_view(child_states@) =~= ids_view(before).push(state.spec_id()));
                }
            },
            StateKind::Orthogonal { child_states } => {
                let ghost before = child_states@;
                child_states.push(child_id);
                proof {
                    assert(ids_view(child_states@) =~= ids_view(before).push(state.spec_id()));
                }
            },
            _ => {},
        }
        s.child_states.push(state);
        s
    }

    /// Nominates the initial child of a composite state; any other kind is
    /// left alone.
    pub fn with_initial_child(self, initial: StateID) -> (r: Self)
        ensures
            r.spec_id() == self.spec_id(),
            r.spec_label() == self.spec_label(),
            r.spec_transitions() == self.spec_transitions(),
            r.spec_children() == self.spec_children(),
            r.spec_entry_actions() == self.spec_entry_actions(),
            r.spec_body_actions() == self.spec_body_actions(),
            r.spec_exit_actions() == self.spec_exit_actions(),
            (match self.spec_kind() {
                StateKind::Composite { child_states, .. } => r.spec_kind()
                    matches StateKind::Composite { child_states: c2, initial: i2 } && c2@
                    == child_states@ && i2 == initial,
                _ => r.spec_kind() == self.spec_kind(),
            }),
    {
        let mut s = self;
        match &mut s.kind {
            StateKind::Composite { initial: slot, .. } => {
                *slot = initial;
            },
            _ => {},
        }
        s
    }
}

/// A freshly made transition builder: no label, no event, no target, no
/// guards, no actions, external.
pub open spec fn fresh_transition_builder(r: TransitionBuilder) -> bool {
    &&& r.spec_label() is None
    &&& r.spec_event() is None
    &&& r.spec_target() is None
    &&& !r.spec_internal()
    &&& r.spec_conditions() == Seq::<Condition>::empty()
    &&& r.spec_actions() == Seq::<Action>::empty()
}

impl TransitionBuilder {
    /// The label chosen so far.
    pub closed spec fn spec_label(self) -> Option<Seq<char>> {
        match self.label {
            Some(l) => Some(l@),
            None => None,
        }
    }

    /// The event chosen so far.
    pub closed spec fn spec_event(self) -> Option<u64> {
        self.event
    }

    /// The target chosen so far.
    pub closed spec fn spec_target(self) -> Option<StateID> {
        self.target
    }

    /// Whether the transition was marked internal.
    pub closed spec fn spec_internal(self) -> bool {
        self.internal
    }

    /// The guard conditions attached so far, in order.
    pub closed spec fn spec_conditions(self) -> Seq<Condition> {
        self.conditions@
    }

    /// The actions attached so far, in order.
    pub closed spec fn spec_actions(self) -> Seq<Action> {
        self.actions@
    }

    /// Whether the target is the placeholder that
    /// [`TransitionBuilder::back_to_self`] leaves for the owning state to
    /// resolve.
    pub closed spec fn spec_is_self_loop_placeholder(self) -> bool {
        match self.target {
            Some(t) => t@ == "<invalid-state-tag>"@,
            None => false,
        }
    }

    /// An empty transition builder: no event, no target, no guards, no
    /// actions, external.
    pub fn new() -> (r: Self)
        ensures
            fresh_transition_builder(r),
    {
        let r = TransitionBuilder {
            label: None,
            event: None,
            target: None,
            internal: false,
            conditions: Vec::new(),
            actions: Vec::new(),
        };
        proof {
            assert(r.spec_conditions() =~= Seq::<Condition>::empty());
            assert(r.spec_actions() =~= Seq::<Action>::empty());
        }
        r
    }

    /// Removes the transition label.
    pub fn unlabeled(self) -> (r: Self)
        ensures
            r.spec_label() is None,
            r.spec_event() == self.spec_event(),
            r.spec_target() == self.spec_target(),
            r.spec_internal() == self.spec_internal(),
            r.spec_conditions() == self.spec_conditions(),
            r.spec_actions() == self.spec_actions(),
    {
        TransitionBuilder { label: None, ..self }
    }

    /// Sets the transition label.
    pub fn labeled(self, label: &str) -> (r: Self)
        ensures
            r.spec_label() == Some(label@),
            r.spec_event() == self.spec_event(),
            r.spec_target() == self.spec_target(),
            r.spec_internal() == self.spec_internal(),
            r.spec_conditions() == self.spec_conditions(),
            r.spec_actions() == self.spec_actions(),
    {
        TransitionBuilder { label: Some(label.to_owned()), ..self }
    }

    /// Waits for the given event.
    pub fn on_event(self, event: u64) -> (r: Self)
        ensures
            r.spec_event() == Some(event),
            r.spec_label() == self.spec_label(),
            r.spec_target() == self.spec_target(),
            r.spec_internal() == self.spec_internal(),
            r.spec_conditions() == self.spec_conditions(),
            r.spec_actions() == self.spec_actions(),
    {
        TransitionBuilder { event: Some(event), ..self }
    }

    /// Targets the state with the given identifier, which must be valid.
    pub fn to(self, target_state: &str) -> (r: Self)
        requires
            spec_validate_id(target_state@) is Ok,
        ensures
            r.spec_target() matches Some(t) && t@ == target_state@,
            r.spec_label() == self.spec_label(),
            r.spec_event() == self.spec_event(),
            r.spec_internal() == self.spec_internal(),
            r.spec_conditions() == self.spec_conditions(),
            r.spec_actions() == self.spec_actions(),
    {
        let t = match StateID::new(target_state) {
            Ok(i) => i,
            Err(_) => {
                proof {
                    assert(false);
                }
                StateID::invalid()
            },
        };
        TransitionBuilder { target: Some(t), ..self }
    }

    /// Points the transition back at its source; the placeholder is
    /// resolved when the transition is attached to a state.
    pub fn back_to_self(self) -> (r: Self)
        ensures
            r.spec_is_self_loop_placeholder(),
            r.spec_label() == self.spec_label(),
            r.spec_event() == self.spec_event(),
            r.spec_internal() == self.spec_internal(),
            r.spec_conditions() == self.spec_conditions(),
            r.spec_actions() == self.spec_actions(),
    {
        TransitionBuilder { target: Some(StateID::invalid()), ..self }
    }

    /// Appends a guard condition to the conjunction.
    pub fn if_condition(self, condition: Condition) -> (r: Self)
        ensures
            r.spec_conditions() == self.spec_conditions().push(condition),
            r.spec_label() == self.spec_label(),
            r.spec_event() == self.spec_event(),
            r.spec_target() == self.spec_target(),
            r.spec_internal() == self.spec_internal(),
            r.spec_actions() == self.spec_actions(),
    {
        let mut t = self;
        t.conditions.push(condition);
        t
    }

    /// Reads as prose in a chain; changes nothing.
    pub fn and(self) -> (r: Self)
        ensures
            r == self,
    {
        self
    }

    /// Reads as prose in a chain; changes nothing.
    pub fn then(self) -> (r: Self)
        ensures
            r == self,
    {
        self
    }

    /// Appends a transition action.
    pub fn do_action(self, action: Action) -> (r: Self)
        ensures
            r.spec_actions() == self.spec_actions().push(action),
            r.spec_label() == self.spec_label(),
            r.spec_event() == self.spec_event(),
            r.spec_target() == self.spec_target(),
            r.spec_internal() == self.spec_internal(),
            r.spec_conditions() == self.spec_conditions(),
    {
        let mut t = self;
        t.actions.push(action);
        t
    }

    /// Marks the transition external: it crosses its source's boundary.
    pub fn externally(self) -> (r: Self)
        ensures
            !r.spec_internal(),
            r.spec_label() == self.spec_label(),
            r.spec_event() == self.spec_event(),
            r.spec_target() == self.spec_target(),
            r.spec_conditions() == self.spec_conditions(),
            r.spec_actions() == self.spec_actions(),
    {
        TransitionBuilder { internal: false, ..self }
    }

    /// Marks the transition internal: it never crosses its source's
    /// boundary.
    pub fn internally(self) -> (r: Self)
        ensures
            r.spec_internal(),
            r.spec_label() == self.spec_label(),
            r.spec_event() == self.spec_event(),
            r.spec_target() == self.spec_target(),
            r.spec_conditions() == self.spec_conditions(),
            r.spec_actions() == self.spec_actions(),
    {
        TransitionBuilder { internal: true, ..self }
    }

    /// Builds the transition record, keeping every chosen part.
    fn build(self) -> (r: Transition)
        ensures
            r.spec_label() == self.spec_label(),
            r.spec_event() == self.spec_event(),
            r.spec_target() == self.spec_target(),
            r.spec_internal() == self.spec_internal(),
            r.spec_conditions() == self.spec_conditions(),
            r.spec_actions() == self.spec_actions(),
    {
        let TransitionBuilder { label, event, target, internal, conditions, actions } = self;
        Transition::new(label, event, target, internal, conditions, actions)
    }
}

} // verus!
