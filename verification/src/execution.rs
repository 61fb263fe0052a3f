//! The execution engine: a runtime instance wraps one shared, validated
//! model, an exclusively owned active configuration and context payload, and
//! a lifecycle value. It implements initial execution, event posting with
//! conflict detection, and completion.
//!
//! The semantics of one step is given by the specification functions in
//! this module ([`enter_spec`], [`resolve_spec`], [`post_spec`],
//! [`execute_spec`]); the engine is proved to follow them exactly.

use std::rc::Rc;

use vstd::prelude::*;

use crate::definition::behavior::{apply_effect, effect_aborts, eval_guard, Action, Condition};
use crate::definition::{find_state, ids_view, machine_invariants, validate_spec, InternalEvent,
    State, StateKind, StateMachine, Transition};
use crate::error::ErrorKind;
use crate::tag::StateID;

verus! {

/// The lifecycle of an instance: it is created `New`, becomes `Active` on
/// its first execution, is `InAction` only for the duration of a callback,
/// and ends `Done` on completion or `Error` after an aborted action.
#[derive(Clone, Copy, Debug, PartialEq, Eq, Structural)]
pub enum ExecutionState {
    /// Created, not yet executed.
    New,
    /// Executed and still consuming events.
    Active,
    /// Inside a running callback; posting is refused.
    InAction,
    /// Every active state is final; the instance is finished.
    Done,
    /// An action aborted; the instance refuses all further calls.
    Error,
}

/// The context and abort flag after running an action list from position
/// `i`: effects apply in order, and the first aborting action stops the run.
pub open spec fn run_actions_spec(acts: Seq<Action>, ctx: Seq<i64>, i: int) -> (Seq<i64>, bool)
    decreases acts.len() - i,
{
    if i < 0 || i >= acts.len() {
        (ctx, false)
    } else if effect_aborts(acts[i].spec_action()) {
        (ctx, true)
    } else {
        run_actions_spec(acts, apply_effect(acts[i].spec_action(), ctx), i + 1)
    }
}

/// Whether every condition from position `i` on holds of the context: the
/// guard conjunction.
pub open spec fn conditions_pass_from(cs: Seq<Condition>, ctx: Seq<i64>, i: int) -> bool
    decreases cs.len() - i,
{
    i < 0 || i >= cs.len() || (eval_guard(cs[i].spec_condition(), ctx) && conditions_pass_from(
        cs,
        ctx,
        i + 1,
    ))
}

/// A transition is enabled for an event (or for the completion pass, when
/// the event is absent) when its event field matches and every guard holds.
pub open spec fn transition_enabled(t: Transition, ev: Option<u64>, ctx: Seq<i64>) -> bool {
    t.spec_event() == ev && conditions_pass_from(t.spec_conditions(), ctx, 0)
}

/// How many transitions from position `i` on are enabled.
pub open spec fn count_enabled_from(
    ts: Seq<Transition>,
    ev: Option<u64>,
    ctx: Seq<i64>,
    i: int,
) -> int
    decreases ts.len() - i,
{
    if i < 0 || i >= ts.len() {
        0
    } else {
        (if transition_enabled(ts[i], ev, ctx) {
            1int
        } else {
            0int
        }) + count_enabled_from(ts, ev, ctx, i + 1)
    }
}

/// The position of the first enabled transition from `i` on, if any.
pub open spec fn first_enabled_from(
    ts: Seq<Transition>,
    ev: Option<u64>,
    ctx: Seq<i64>,
    i: int,
) -> Option<int>
    decreases ts.len() - i,
{
    if i < 0 || i >= ts.len() {
        None
    } else if transition_enabled(ts[i], ev, ctx) {
        Some(i)
    } else {
        first_enabled_from(ts, ev, ctx, i + 1)
    }
}

/// Whether any transition from `i` on matches the event and is external.
/// When such a sibling candidate exists, the source's exit actions run
/// before the winner fires.
pub open spec fn any_external_match_from(ts: Seq<Transition>, ev: Option<u64>, i: int) -> bool
    decreases ts.len() - i,
{
    if i < 0 || i >= ts.len() {
        false
    } else {
        (ts[i].spec_event() == ev && !ts[i].spec_internal()) || any_external_match_from(
            ts,
            ev,
            i + 1,
        )
    }
}

/// The outcome of entering states: the leaf identifiers that became active,
/// the context after the actions that ran, and the error, if any.
pub ghost struct EnterOut {
    /// The identifier texts of the leaves that became active.
    pub leaves: Seq<Seq<char>>,
    /// The context after every action that ran.
    pub ctx: Seq<i64>,
    /// `None` on success; an aborted action or an unresolved conflict
    /// otherwise.
    pub err: Option<ErrorKind>,
}

/// The entry sequence for one state: run its entry actions, then its body
/// actions, then recurse by kind — into a composite's nominated initial
/// child, into every child of an orthogonal state, into a history state's
/// remembered states — and for leaf kinds attempt the state's own
/// completion transition. A composite or orthogonal state delegates its
/// completion to the children it enters; only leaf kinds resolve their
/// own completion transitions. The fuel bounds chains of completion
/// transitions; a chain longer than the number of states cannot
/// terminate, so it is cut and surfaced as an aborted entry, forcing the
/// error lifecycle.
pub open spec fn enter_spec(m: StateMachine, sid: Seq<char>, ctx: Seq<i64>, fuel: nat) -> EnterOut
    decreases fuel, 3int,
{
    match find_state(m, sid) {
        None => EnterOut { leaves: seq![sid], ctx, err: None },
        Some(s) => {
            if fuel == 0 {
                EnterOut { leaves: seq![], ctx, err: Some(ErrorKind::ActionPanicked) }
            } else {
                let entry_run = run_actions_spec(s.spec_entry_actions(), ctx, 0);
                if entry_run.1 {
                    EnterOut { leaves: seq![], ctx: entry_run.0, err: Some(
                        ErrorKind::ActionPanicked,
                    ) }
                } else {
                    let body_run = run_actions_spec(s.spec_body_actions(), entry_run.0, 0);
                    if body_run.1 {
                        EnterOut { leaves: seq![], ctx: body_run.0, err: Some(
                            ErrorKind::ActionPanicked,
                        ) }
                    } else {
                        match s.spec_kind() {
                            StateKind::Composite { initial, .. } => enter_spec(
                                m,
                                initial@,
                                body_run.0,
                                (fuel - 1) as nat,
                            ),
                            StateKind::Orthogonal { child_states } => enter_list_spec(
                                m,
                                ids_view(child_states@),
                                body_run.0,
                                (fuel - 1) as nat,
                                0,
                            ),
                            StateKind::History { state, .. } => if state@.len() == 0 {
                                EnterOut { leaves: seq![sid], ctx: body_run.0, err: None }
                            } else {
                                enter_list_spec(
                                    m,
                                    ids_view(state@),
                                    body_run.0,
                                    (fuel - 1) as nat,
                                    0,
                                )
                            },
                            _ => resolve_spec(m, s, sid, None, body_run.0, fuel),
                        }
                    }
                }
            }
        },
    }
}

/// Enters each of the given states in order, threading the context and
/// concatenating the resulting leaves; the first error stops the run.
pub open spec fn enter_list_spec(
    m: StateMachine,
    ids: Seq<Seq<char>>,
    ctx: Seq<i64>,
    fuel: nat,
    i: int,
) -> EnterOut
    decreases fuel, ids.len() - i + 4,
{
    if i < 0 || i >= ids.len() {
        EnterOut { leaves: seq![], ctx, err: None }
    } else {
        let h = enter_spec(m, ids[i], ctx, fuel);
        match h.err {
            Some(e) => EnterOut { leaves: seq![], ctx: h.ctx, err: Some(e) },
            None => {
                let rest = enter_list_spec(m, ids, h.ctx, fuel, i + 1);
                match rest.err {
                    Some(e) => EnterOut { leaves: seq![], ctx: rest.ctx, err: Some(e) },
                    None => EnterOut {
                        leaves: h.leaves + rest.leaves,
                        ctx: rest.ctx,
                        err: None,
                    },
                }
            },
        }
    }
}

/// Resolves one state against an event (or against the completion pass,
/// when the event is absent): zero enabled transitions leave the state
/// active and unchanged; exactly one fires; two or more are a conflict.
pub open spec fn resolve_spec(
    m: StateMachine,
    s: State,
    sid: Seq<char>,
    ev: Option<u64>,
    ctx: Seq<i64>,
    fuel: nat,
) -> EnterOut
    decreases fuel, 2int,
{
    let ts = s.spec_transitions();
    let en = count_enabled_from(ts, ev, ctx, 0);
    if en == 0 {
        EnterOut { leaves: seq![sid], ctx, err: None }
    } else if en >= 2 {
        EnterOut { leaves: seq![], ctx, err: Some(ErrorKind::MoreThanOneTransition) }
    } else {
        match first_enabled_from(ts, ev, ctx, 0) {
            Some(k) => fire_spec(m, s, sid, ts[k], ev, ctx, fuel),
            None => EnterOut { leaves: seq![sid], ctx, err: None },
        }
    }
}

/// Fires the winning transition: the source's exit actions run when the
/// winner or any matching sibling candidate is external, then the
/// transition's own actions run, then the target is entered — directly for
/// an internal transition, through the entry sequence otherwise. A
/// transition without a target leaves its source active.
pub open spec fn fire_spec(
    m: StateMachine,
    s: State,
    sid: Seq<char>,
    t: Transition,
    ev: Option<u64>,
    ctx: Seq<i64>,
    fuel: nat,
) -> EnterOut
    decreases fuel, 1int,
{
    let need_exit = any_external_match_from(s.spec_transitions(), ev, 0);
    let exit_run = if need_exit {
        run_actions_spec(s.spec_exit_actions(), ctx, 0)
    } else {
        (ctx, false)
    };
    if exit_run.1 {
        EnterOut { leaves: seq![], ctx: exit_run.0, err: Some(ErrorKind::ActionPanicked) }
    } else {
        let act_run = run_actions_spec(t.spec_actions(), exit_run.0, 0);
        if act_run.1 {
            EnterOut { leaves: seq![], ctx: act_run.0, err: Some(ErrorKind::ActionPanicked) }
        } else {
            match t.spec_target() {
                None => EnterOut { leaves: seq![sid], ctx: act_run.0, err: None },
                Some(tg) => if t.spec_internal() {
                    EnterOut { leaves: seq![tg@], ctx: act_run.0, err: None }
                } else if fuel == 0 {
                    EnterOut { leaves: seq![], ctx: act_run.0, err: Some(
                        ErrorKind::ActionPanicked,
                    ) }
                } else {
                    enter_spec(m, tg@, act_run.0, (fuel - 1) as nat)
                },
            }
        }
    }
}

/// Resolves every member of the active configuration against the event in
/// order, threading the context and concatenating the resulting leaves; the
/// first error stops the run.
pub open spec fn post_list_spec(
    m: StateMachine,
    active: Seq<Seq<char>>,
    ev: u64,
    ctx: Seq<i64>,
    fuel: nat,
    i: int,
) -> EnterOut
    decreases fuel, active.len() - i + 4,
{
    if i < 0 || i >= active.len() {
        EnterOut { leaves: seq![], ctx, err: None }
    } else {
        let h = match find_state(m, active[i]) {
            None => EnterOut { leaves: seq![active[i]], ctx, err: None },
            Some(s) => resolve_spec(m, s, active[i], Some(ev), ctx, fuel),
        };
        match h.err {
            Some(e) => EnterOut { leaves: seq![], ctx: h.ctx, err: Some(e) },
            None => {
                let rest = post_list_spec(m, active, ev, h.ctx, fuel, i + 1);
                match rest.err {
                    Some(e) => EnterOut { leaves: seq![], ctx: rest.ctx, err: Some(e) },
                    None => EnterOut {
                        leaves: h.leaves + rest.leaves,
                        ctx: rest.ctx,
                        err: None,
                    },
                }
            },
        }
    }
}

/// Whether some member of the active configuration has two or more
/// transitions enabled for the event under the given context: a conflict.
pub open spec fn conflict_in(
    m: StateMachine,
    active: Seq<Seq<char>>,
    ev: u64,
    ctx: Seq<i64>,
) -> bool {
    exists|k: int|
        0 <= k < active.len() && (match find_state(m, #[trigger] active[k]) {
            Some(s) => count_enabled_from(s.spec_transitions(), Some(ev), ctx, 0) >= 2,
            None => false,
        })
}

/// The identifier sequence with repetitions removed: walking from the
/// front, an identifier is kept only when it is not already in the
/// accumulator, so each keeps its first position.
pub open spec fn dedup_views_from(s: Seq<Seq<char>>, i: int, acc: Seq<Seq<char>>) -> Seq<
    Seq<char>,
>
    decreases s.len() - i,
{
    if i < 0 || i >= s.len() {
        acc
    } else if acc.contains(s[i]) {
        dedup_views_from(s, i + 1, acc)
    } else {
        dedup_views_from(s, i + 1, acc.push(s[i]))
    }
}

/// The identifier sequence with repetitions removed, first occurrences
/// kept in order. The active configuration is a set of identifiers; this
/// is how one step's resulting leaves become one.
pub open spec fn dedup_views(s: Seq<Seq<char>>) -> Seq<Seq<char>> {
    dedup_views_from(s, 0, Seq::empty())
}

/// Removing repetitions leaves no duplicates.
proof fn lemma_dedup_no_duplicates(s: Seq<Seq<char>>, i: int, acc: Seq<Seq<char>>)
    requires
        acc.no_duplicates(),
    ensures
        dedup_views_from(s, i, acc).no_duplicates(),
    decreases s.len() - i,
{
    if 0 <= i < s.len() {
        if acc.contains(s[i]) {
            lemma_dedup_no_duplicates(s, i + 1, acc);
        } else {
            assert(acc.push(s[i]).no_duplicates());
            lemma_dedup_no_duplicates(s, i + 1, acc.push(s[i]));
        }
    }
}

/// Removing repetitions from a sequence that has none leaves it as it is.
proof fn lemma_dedup_of_distinct(s: Seq<Seq<char>>, i: int, acc: Seq<Seq<char>>)
    requires
        0 <= i <= s.len(),
        (acc + s.subrange(i, s.len() as int)).no_duplicates(),
    ensures
        dedup_views_from(s, i, acc) == acc + s.subrange(i, s.len() as int),
    decreases s.len() - i,
{
    let whole = acc + s.subrange(i, s.len() as int);
    if i >= s.len() {
        assert(dedup_views_from(s, i, acc) =~= whole);
    } else {
        assert(whole[acc.len() as int] == s[i]);
        assert(!acc.contains(s[i])) by {
            if acc.contains(s[i]) {
                let w = choose|k: int| 0 <= k < acc.len() && acc[k] == s[i];
                assert(whole[w] == whole[acc.len() as int]);
            }
        }
        assert(acc.push(s[i]) + s.subrange(i + 1, s.len() as int) =~= whole);
        lemma_dedup_of_distinct(s, i + 1, acc.push(s[i]));
    }
}

/// Whether some currently active state has a transition waiting for the
/// event.
pub open spec fn accepts_event(m: StateMachine, active: Seq<Seq<char>>, e: u64) -> bool {
    exists|k: int|
        0 <= k < active.len() && (match find_state(m, #[trigger] active[k]) {
            Some(s) => crate::definition::state_accepts(s, e),
            None => false,
        })
}

/// A configuration is complete when it is non-empty and every member is a
/// final state.
pub open spec fn config_done(m: StateMachine, leaves: Seq<Seq<char>>) -> bool {
    leaves.len() > 0 && forall|k: int|
        0 <= k < leaves.len() ==> (match find_state(m, #[trigger] leaves[k]) {
            Some(s) => s.spec_kind() is Final,
            None => false,
        })
}

/// The outcome of one whole `execute` or `post` step: the new active
/// configuration, context, lifecycle value, and the call's result.
pub ghost struct StepOut {
    /// The identifier texts of the active configuration after the call.
    pub active: Seq<Seq<char>>,
    /// The context after the call.
    pub ctx: Seq<i64>,
    /// The lifecycle value after the call.
    pub status: ExecutionState,
    /// The call's result.
    pub result: Result<(), ErrorKind>,
}

/// The completion check that ends every step: when the new configuration
/// is complete, the machine-level done actions run and the instance is
/// done; otherwise it stays active.
pub open spec fn finish_spec(m: StateMachine, leaves: Seq<Seq<char>>, ctx: Seq<i64>) -> StepOut {
    if config_done(m, leaves) {
        let done_run = run_actions_spec(m.spec_done_actions(), ctx, 0);
        if done_run.1 {
            StepOut {
                active: leaves,
                ctx: done_run.0,
                status: ExecutionState::Error,
                result: Err(ErrorKind::ActionPanicked),
            }
        } else {
            StepOut {
                active: leaves,
                ctx: done_run.0,
                status: ExecutionState::Done,
                result: Ok(()),
            }
        }
    } else {
        StepOut { active: leaves, ctx, status: ExecutionState::Active, result: Ok(()) }
    }
}

/// One initial execution: the machine-level init actions run, the initial
/// state is entered through the entry sequence, the resulting leaves form
/// a set (first occurrences kept), and completion is checked. An aborted
/// action forces the error lifecycle; an unresolved completion conflict
/// leaves the instance new, with nothing active.
pub open spec fn execute_spec(m: StateMachine, ctx: Seq<i64>) -> StepOut {
    let fuel = m.spec_states().len() as nat;
    let init_run = run_actions_spec(m.spec_init_actions(), ctx, 0);
    if init_run.1 {
        StepOut {
            active: seq![],
            ctx: init_run.0,
            status: ExecutionState::Error,
            result: Err(ErrorKind::ActionPanicked),
        }
    } else {
        let o = enter_spec(m, m.spec_initial()@, init_run.0, fuel);
        match o.err {
            Some(e) => if e is ActionPanicked {
                StepOut {
                    active: seq![],
                    ctx: o.ctx,
                    status: ExecutionState::Error,
                    result: Err(e),
                }
            } else {
                StepOut { active: seq![], ctx: o.ctx, status: ExecutionState::New, result: Err(e) }
            },
            None => finish_spec(m, dedup_views(o.leaves), o.ctx),
        }
    }
}

/// Runs an action list in order against the context, stopping at the
/// first aborting action; returns whether the whole list ran. The phase
/// tag records which part of the machine's behaviour the list belongs to;
/// the closed action capabilities read the context only.
fn run_action_list(
    acts: &Vec<Action>,
    in_state: &StateID,
    phase: InternalEvent,
    ctx: &mut Vec<i64>,
) -> (ok: bool)
    ensures
        ({
            let o = run_actions_spec(acts@, old(ctx)@, 0);
            final(ctx)@ == o.0 && ok == !o.1
        }),
{
    let ghost ctx0 = ctx@;
    let n = acts.len();
    let mut i: usize = 0;
    while i < n
        invariant
            n == acts@.len(),
            i <= n,
            ctx0 == old(ctx)@,
            run_actions_spec(acts@, ctx0, 0) == run_actions_spec(acts@, ctx@, i as int),
        decreases n - i,
    {
        let ok = acts[i].call(in_state, phase, ctx);
        if !ok {
            return false;
        }
        i = i + 1;
    }
    true
}

/// Whether every guard condition of a transition holds of the context.
fn conditions_hold(t: &Transition, sid: &StateID, ev: &Option<u64>, ctx: &Vec<i64>) -> (r: bool)
    ensures
        r == conditions_pass_from(t.spec_conditions(), ctx@, 0),
{
    let cs = t.conditions();
    let n = cs.len();
    let mut i: usize = 0;
    while i < n
        invariant
            n == cs@.len(),
            cs@ == t.spec_conditions(),
            i <= n,
            conditions_pass_from(cs@, ctx@, 0) == conditions_pass_from(cs@, ctx@, i as int),
        decreases n - i,
    {
        if !cs[i].evaluate(sid, ev, ctx) {
            return false;
        }
        i = i + 1;
    }
    true
}

/// Whether two optional events are the same.
fn same_event(a: &Option<u64>, b: &Option<u64>) -> (r: bool)
    ensures
        r == (*a == *b),
{
    match (a, b) {
        (Some(x), Some(y)) => *x == *y,
        (None, None) => true,
        _ => false,
    }
}

/// Whether a transition is enabled for the event under the context.
fn is_enabled(t: &Transition, sid: &StateID, ev: &Option<u64>, ctx: &Vec<i64>) -> (r: bool)
    ensures
        r == transition_enabled(*t, *ev, ctx@),
{
    let te = t.event();
    if !same_event(&te, ev) {
        return false;
    }
    conditions_hold(t, sid, ev, ctx)
}

/// Counts the transitions enabled for the event under the context.
fn count_enabled(ts: &Vec<Transition>, sid: &StateID, ev: &Option<u64>, ctx: &Vec<i64>) -> (c:
    usize)
    ensures
        c == count_enabled_from(ts@, *ev, ctx@, 0),
{
    let n = ts.len();
    let mut i: usize = 0;
    let mut c: usize = 0;
    while i < n
        invariant
            n == ts@.len(),
            i <= n,
            c <= i,
            c + count_enabled_from(ts@, *ev, ctx@, i as int) == count_enabled_from(
                ts@,
                *ev,
                ctx@,
                0,
            ),
        decreases n - i,
    {
        if is_enabled(&ts[i], sid, ev, ctx) {
            c = c + 1;
        }
        i = i + 1;
    }
    c
}

/// The position of the first transition enabled for the event, if any.
fn first_enabled(ts: &Vec<Transition>, sid: &StateID, ev: &Option<u64>, ctx: &Vec<i64>) -> (r:
    Option<usize>)
    ensures
        match r {
            Some(k) => first_enabled_from(ts@, *ev, ctx@, 0) == Some(k as int) && k < ts@.len(),
            None => first_enabled_from(ts@, *ev, ctx@, 0) is None,
        },
{
    let n = ts.len();
    let mut i: usize = 0;
    while i < n
        invariant
            n == ts@.len(),
            i <= n,
            first_enabled_from(ts@, *ev, ctx@, 0) == first_enabled_from(ts@, *ev, ctx@, i as int),
        decreases n - i,
    {
        if is_enabled(&ts[i], sid, ev, ctx) {
            return Some(i);
        }
        i = i + 1;
    }
    None
}

/// Whether any transition matching the event is external.
fn any_external_match(ts: &Vec<Transition>, ev: &Option<u64>) -> (r: bool)
    ensures
        r == any_external_match_from(ts@, *ev, 0),
{
    let n = ts.len();
    let mut i: usize = 0;
    while i < n
        invariant
            n == ts@.len(),
            i <= n,
            any_external_match_from(ts@, *ev, 0) == any_external_match_from(ts@, *ev, i as int),
        decreases n - i,
    {
        let te = ts[i].event();
        if same_event(&te, ev) && !ts[i].is_internal() {
            return true;
        }
        i = i + 1;
    }
    false
}

/// Identifier views of a concatenation are the concatenated views.
proof fn lemma_ids_view_concat(a: Seq<StateID>, b: Seq<StateID>)
    ensures
        ids_view(a + b) == ids_view(a) + ids_view(b),
{
    assert(ids_view(a + b) =~= ids_view(a) + ids_view(b));
}

/// There is a first enabled transition exactly when the count of enabled
/// transitions is positive.
proof fn lemma_count_pos_first_some(ts: Seq<Transition>, ev: Option<u64>, ctx: Seq<i64>, i: int)
    requires
        0 <= i <= ts.len(),
    ensures
        (count_enabled_from(ts, ev, ctx, i) > 0) <==> (first_enabled_from(ts, ev, ctx, i)
            is Some),
        count_enabled_from(ts, ev, ctx, i) >= 0,
    decreases ts.len() - i,
{
    if i < ts.len() {
        lemma_count_pos_first_some(ts, ev, ctx, i + 1);
    }
}

/// Enters one state by the entry sequence, against [`enter_spec`].
fn enter_state(chart: &StateMachine, sid: &StateID, ctx: &mut Vec<i64>, fuel: usize) -> (r: Result<
    Vec<StateID>,
    ErrorKind,
>)
    ensures
        ({
            let o = enter_spec(*chart, sid@, old(ctx)@, fuel as nat);
            &&& final(ctx)@ == o.ctx
            &&& (match r {
                Ok(v) => o.err is None && ids_view(v@) == o.leaves,
                Err(e) => o.err == Some(e),
            })
        }),
    decreases fuel, 3int,
{
    match chart.get_state(sid) {
        None => {
            let mut v: Vec<StateID> = Vec::new();
            v.push(sid.clone());
            proof {
                assert(ids_view(v@) =~= seq![sid@]);
            }
            Ok(v)
        },
        Some(s) => {
            if fuel == 0 {
                return Err(ErrorKind::ActionPanicked);
            }
            if !run_action_list(s.entry_actions(), sid, InternalEvent::Entry, ctx) {
                return Err(ErrorKind::ActionPanicked);
            }
            if !run_action_list(s.body_actions(), sid, InternalEvent::Run, ctx) {
                return Err(ErrorKind::ActionPanicked);
            }
            match s.kind() {
                StateKind::Composite { initial, .. } => enter_state(chart, initial, ctx, fuel - 1),
                StateKind::Orthogonal { child_states } => enter_list(
                    chart,
                    child_states,
                    0,
                    ctx,
                    fuel - 1,
                ),
                StateKind::History { state, .. } => {
                    if state.len() == 0 {
                        let mut v: Vec<StateID> = Vec::new();
                        v.push(sid.clone());
                        proof {
                            assert(ids_view(v@) =~= seq![sid@]);
                        }
                        Ok(v)
                    } else {
                        enter_list(chart, state, 0, ctx, fuel - 1)
                    }
                },
                _ => resolve_state(chart, s, sid, &None, ctx, fuel),
            }
        },
    }
}

/// Enters each state of a list in order, against [`enter_list_spec`].
fn enter_list(
    chart: &StateMachine,
    ids: &Vec<StateID>,
    from: usize,
    ctx: &mut Vec<i64>,
    fuel: usize,
) -> (r: Result<Vec<StateID>, ErrorKind>)
    requires
        from <= ids@.len(),
    ensures
        ({
            let o = enter_list_spec(*chart, ids_view(ids@), old(ctx)@, fuel as nat, from as int);
            &&& final(ctx)@ == o.ctx
            &&& (match r {
                Ok(v) => o.err is None && ids_view(v@) == o.leaves,
                Err(e) => o.err == Some(e),
            })
        }),
    decreases fuel, ids@.len() - from + 4,
{
    if from >= ids.len() {
        let v: Vec<StateID> = Vec::new();
        proof {
            assert(ids_view(v@) =~= Seq::<Seq<char>>::empty());
        }
        return Ok(v);
    }
    match enter_state(chart, &ids[from], ctx, fuel) {
        Err(e) => Err(e),
        Ok(mut v) => {
            match enter_list(chart, ids, from + 1, ctx, fuel) {
                Err(e) => Err(e),
                Ok(mut rest) => {
                    proof {
                        lemma_ids_view_concat(v@, rest@);
                    }
                    v.append(&mut rest);
                    Ok(v)
                },
            }
        },
    }
}

/// Resolves one state against an event or the completion pass, against
/// [`resolve_spec`].
fn resolve_state(
    chart: &StateMachine,
    s: &State,
    sid: &StateID,
    ev: &Option<u64>,
    ctx: &mut Vec<i64>,
    fuel: usize,
) -> (r: Result<Vec<StateID>, ErrorKind>)
    ensures
        ({
            let o = resolve_spec(*chart, *s, sid@, *ev, old(ctx)@, fuel as nat);
            &&& final(ctx)@ == o.ctx
            &&& (match r {
                Ok(v) => o.err is None && ids_view(v@) == o.leaves,
                Err(e) => o.err == Some(e),
            })
        }),
    decreases fuel, 2int,
{
    let ts = s.transitions();
    let c = count_enabled(ts, sid, ev, ctx);
    if c == 0 {
        let mut v: Vec<StateID> = Vec::new();
        v.push(sid.clone());
        proof {
            assert(ids_view(v@) =~= seq![sid@]);
        }
        return Ok(v);
    }
    if c >= 2 {
        return Err(ErrorKind::MoreThanOneTransition);
    }
    match first_enabled(ts, sid, ev, ctx) {
        Some(k) => fire_transition(chart, s, sid, &ts[k], ev, ctx, fuel),
        None => {
            proof {
                lemma_count_pos_first_some(ts@, *ev, ctx@, 0);
            }
            assert(false);
            Err(ErrorKind::MoreThanOneTransition)
        },
    }
}

/// Fires a winning transition, against [`fire_spec`].
fn fire_transition(
    chart: &StateMachine,
    s: &State,
    sid: &StateID,
    t: &Transition,
    ev: &Option<u64>,
    ctx: &mut Vec<i64>,
    fuel: usize,
) -> (r: Result<Vec<StateID>, ErrorKind>)
    ensures
        ({
            let o = fire_spec(*chart, *s, sid@, *t, *ev, old(ctx)@, fuel as nat);
            &&& final(ctx)@ == o.ctx
            &&& (match r {
                Ok(v) => o.err is None && ids_view(v@) == o.leaves,
                Err(e) => o.err == Some(e),
            })
        }),
    decreases fuel, 1int,
{
    let need_exit = any_external_match(s.transitions(), ev);
    if need_exit {
        if !run_action_list(s.exit_actions(), sid, InternalEvent::Exit, ctx) {
            return Err(ErrorKind::ActionPanicked);
        }
    }
    if !run_action_list(t.actions(), sid, InternalEvent::Transition, ctx) {
        return Err(ErrorKind::ActionPanicked);
    }
    match t.target_state_id() {
        None => {
            let mut v: Vec<StateID> = Vec::new();
            v.push(sid.clone());
            proof {
                assert(ids_view(v@) =~= seq![sid@]);
            }
            Ok(v)
        },
        Some(tg) => {
            if t.is_internal() {
                let ghost tgv = tg@;
                let mut v: Vec<StateID> = Vec::new();
                v.push(tg);
                proof {
                    assert(ids_view(v@) =~= seq![tgv]);
                }
                Ok(v)
            } else if fuel == 0 {
                Err(ErrorKind::ActionPanicked)
            } else {
                enter_state(chart, &tg, ctx, fuel - 1)
            }
        },
    }
}

/// Resolves every member of the active configuration in order, against
/// [`post_list_spec`].
fn post_list(
    chart: &StateMachine,
    active: &Vec<StateID>,
    from: usize,
    ev: u64,
    ctx: &mut Vec<i64>,
    fuel: usize,
) -> (r: Result<Vec<StateID>, ErrorKind>)
    requires
        from <= active@.len(),
    ensures
        ({
            let o = post_list_spec(
                *chart,
                ids_view(active@),
                ev,
                old(ctx)@,
                fuel as nat,
                from as int,
            );
            &&& final(ctx)@ == o.ctx
            &&& (match r {
                Ok(v) => o.err is None && ids_view(v@) == o.leaves,
                Err(e) => o.err == Some(e),
            })
        }),
    decreases fuel, active@.len() - from + 4,
{
    if from >= active.len() {
        let v: Vec<StateID> = Vec::new();
        proof {
            assert(ids_view(v@) =~= Seq::<Seq<char>>::empty());
        }
        return Ok(v);
    }
    let sid = &active[from];
    let h = match chart.get_state(sid) {
        None => {
            let mut v: Vec<StateID> = Vec::new();
            v.push(sid.clone());
            proof {
                assert(ids_view(v@) =~= seq![sid@]);
            }
            Ok(v)
        },
        Some(s) => resolve_state(chart, s, sid, &Some(ev), ctx, fuel),
    };
    match h {
        Err(e) => Err(e),
        Ok(mut v) => {
            match post_list(chart, active, from + 1, ev, ctx, fuel) {
                Err(e) => Err(e),
                Ok(mut rest) => {
                    proof {
                        lemma_ids_view_concat(v@, rest@);
                    }
                    v.append(&mut rest);
                    Ok(v)
                },
            }
        },
    }
}

/// Whether some member of the active configuration has a conflict for the
/// event under the context, against [`conflict_in`].
fn scan_conflicts(chart: &StateMachine, active: &Vec<StateID>, ev: u64, ctx: &Vec<i64>) -> (r:
    bool)
    ensures
        r == conflict_in(*chart, ids_view(active@), ev, ctx@),
{
    let n = active.len();
    let mut i: usize = 0;
    while i < n
        invariant
            n == active@.len(),
            i <= n,
            forall|k: int|
                0 <= k < i ==> (match find_state(*chart, #[trigger] ids_view(active@)[k]) {
                    Some(s) => count_enabled_from(s.spec_transitions(), Some(ev), ctx@, 0) < 2,
                    None => true,
                }),
        decreases n - i,
    {
        match chart.get_state(&active[i]) {
            Some(s) => {
                let c = count_enabled(s.transitions(), &active[i], &Some(ev), ctx);
                if c >= 2 {
                    proof {
                        assert(ids_view(active@)[i as int] == active@[i as int]@);
                    }
                    return true;
                }
            },
            None => {},
        }
        i = i + 1;
    }
    false
}

/// Whether a list of identifiers holds one with the given text.
fn vec_contains_id(v: &Vec<StateID>, x: &StateID) -> (r: bool)
    ensures
        r == ids_view(v@).contains(x@),
{
    let n = v.len();
    let mut i: usize = 0;
    while i < n
        invariant
            n == v@.len(),
            i <= n,
            forall|k: int| 0 <= k < i ==> ids_view(v@)[k] != x@,
        decreases n - i,
    {
        if v[i] == *x {
            proof {
                assert(ids_view(v@)[i as int] == x@);
            }
            return true;
        }
        proof {
            assert(ids_view(v@)[i as int] == v@[i as int]@);
        }
        i = i + 1;
    }
    false
}

/// Removes repeated identifiers, keeping first occurrences in order,
/// against [`dedup_views`].
fn dedup_ids(ids: Vec<StateID>) -> (r: Vec<StateID>)
    ensures
        ids_view(r@) == dedup_views(ids_view(ids@)),
{
    let ghost views = ids_view(ids@);
    let n = ids.len();
    let mut r: Vec<StateID> = Vec::new();
    proof {
        assert(ids_view(r@) =~= Seq::<Seq<char>>::empty());
    }
    let mut i: usize = 0;
    while i < n
        invariant
            n == ids@.len(),
            i <= n,
            views == ids_view(ids@),
            dedup_views(views) == dedup_views_from(views, i as int, ids_view(r@)),
        decreases n - i,
    {
        proof {
            assert(views[i as int] == ids@[i as int]@);
        }
        if !vec_contains_id(&r, &ids[i]) {
            let ghost r_views_old = ids_view(r@);
            r.push(ids[i].clone());
            proof {
                assert(ids_view(r@) =~= r_views_old.push(views[i as int]));
            }
        }
        i = i + 1;
    }
    r
}

/// Whether the configuration is complete, against [`config_done`].
fn config_is_done(chart: &StateMachine, leaves: &Vec<StateID>) -> (r: bool)
    ensures
        r == config_done(*chart, ids_view(leaves@)),
{
    if leaves.len() == 0 {
        return false;
    }
    let n = leaves.len();
    let mut i: usize = 0;
    while i < n
        invariant
            n == leaves@.len(),
            n > 0,
            i <= n,
            forall|k: int|
                0 <= k < i ==> (match find_state(*chart, #[trigger] ids_view(leaves@)[k]) {
                    Some(s) => s.spec_kind() is Final,
                    None => false,
                }),
        decreases n - i,
    {
        match chart.get_state(&leaves[i]) {
            Some(s) => {
                match s.kind() {
                    StateKind::Final => {},
                    _ => {
                        proof {
                            assert(ids_view(leaves@)[i as int] == leaves@[i as int]@);
                        }
                        return false;
                    },
                }
            },
            None => {
                proof {
                    assert(ids_view(leaves@)[i as int] == leaves@[i as int]@);
                }
                return false;
            },
        }
        i = i + 1;
    }
    true
}

/// One posted event: a conflict under the pre-call context is reported
/// with nothing changed; otherwise every active member is resolved in
/// order, the resulting leaves form a set (first occurrences kept), and
/// completion is checked. On any error the active configuration is left
/// exactly as it was before the call; an aborted action forces the error
/// lifecycle.
pub open spec fn post_spec(m: StateMachine, active: Seq<Seq<char>>, ev: u64, ctx: Seq<i64>) -> StepOut {
    if conflict_in(m, active, ev, ctx) {
        StepOut {
            active,
            ctx,
            status: ExecutionState::Active,
            result: Err(ErrorKind::MoreThanOneTransition),
        }
    } else {
        let fuel = m.spec_states().len() as nat;
        let o = post_list_spec(m, active, ev, ctx, fuel, 0);
        match o.err {
            Some(e) => if e is ActionPanicked {
                StepOut { active, ctx: o.ctx, status: ExecutionState::Error, result: Err(e) }
            } else {
                StepOut { active, ctx: o.ctx, status: ExecutionState::Active, result: Err(e) }
            },
            None => finish_spec(m, dedup_views(o.leaves), o.ctx),
        }
    }
}

/// No transition of the list matching the event means none is enabled.
proof fn lemma_no_match_count_zero(ts: Seq<Transition>, ev: u64, ctx: Seq<i64>, i: int)
    requires
        forall|j: int|
            0 <= j < ts.len() ==> (#[trigger] ts[j]).spec_event() != Some(ev),
    ensures
        count_enabled_from(ts, Some(ev), ctx, i) == 0,
    decreases ts.len() - i,
{
    if 0 <= i < ts.len() {
        lemma_no_match_count_zero(ts, ev, ctx, i + 1);
    }
}

/// Resolving a list of states none of which matches the event keeps each
/// of them, in order, and leaves the context alone.
proof fn lemma_post_list_unmatched(
    m: StateMachine,
    active: Seq<Seq<char>>,
    ev: u64,
    ctx: Seq<i64>,
    fuel: nat,
    i: int,
)
    requires
        0 <= i <= active.len(),
        forall|k: int|
            0 <= k < active.len() ==> (match find_state(m, #[trigger] active[k]) {
                Some(s) => forall|j: int|
                    0 <= j < s.spec_transitions().len() ==> (#[trigger] s.spec_transitions()[j]).spec_event()
                        != Some(ev),
                None => true,
            }),
    ensures
        post_list_spec(m, active, ev, ctx, fuel, i) == (EnterOut {
            leaves: active.subrange(i, active.len() as int),
            ctx,
            err: None,
        }),
    decreases active.len() - i,
{
    if i >= active.len() {
        assert(active.subrange(i, active.len() as int) =~= Seq::<Seq<char>>::empty());
    } else {
        match find_state(m, active[i]) {
            Some(s) => {
                lemma_no_match_count_zero(s.spec_transitions(), ev, ctx, 0);
            },
            None => {},
        }
        lemma_post_list_unmatched(m, active, ev, ctx, fuel, i + 1);
        assert(seq![active[i]] + active.subrange(i + 1, active.len() as int) =~= active.subrange(
            i,
            active.len() as int,
        ));
    }
}

/// An event that no transition of any active state matches is ignored:
/// posting it succeeds and leaves the active configuration, the context
/// and the lifecycle value unchanged. The configuration of an active
/// instance is never complete, which the hypothesis mirrors.
pub proof fn lemma_unmatched_event_is_ignored(
    m: StateMachine,
    active: Seq<Seq<char>>,
    ev: u64,
    ctx: Seq<i64>,
)
    requires
        forall|k: int|
            0 <= k < active.len() ==> (match find_state(m, #[trigger] active[k]) {
                Some(s) => forall|j: int|
                    0 <= j < s.spec_transitions().len() ==> (#[trigger] s.spec_transitions()[j]).spec_event()
                        != Some(ev),
                None => true,
            }),
        active.no_duplicates(),
        !config_done(m, active),
    ensures
        post_spec(m, active, ev, ctx) == (StepOut {
            active,
            ctx,
            status: ExecutionState::Active,
            result: Ok(()),
        }),
{
    let fuel = m.spec_states().len() as nat;
    assert forall|k: int| 0 <= k < active.len() implies (match find_state(
        m,
        #[trigger] active[k],
    ) {
        Some(s) => count_enabled_from(s.spec_transitions(), Some(ev), ctx, 0) < 2,
        None => true,
    }) by {
        match find_state(m, active[k]) {
            Some(s) => {
                lemma_no_match_count_zero(s.spec_transitions(), ev, ctx, 0);
            },
            None => {},
        }
    }
    assert(!conflict_in(m, active, ev, ctx));
    lemma_post_list_unmatched(m, active, ev, ctx, fuel, 0);
    assert(active.subrange(0, active.len() as int) =~= active);
    assert(Seq::<Seq<char>>::empty() + active =~= active);
    lemma_dedup_of_distinct(active, 0, Seq::<Seq<char>>::empty());
}

/// A witness that is enabled puts the count at one or more.
proof fn lemma_count_ge_one(ts: Seq<Transition>, ev: Option<u64>, ctx: Seq<i64>, i: int, w: int)
    requires
        0 <= i <= w < ts.len(),
        transition_enabled(ts[w], ev, ctx),
    ensures
        count_enabled_from(ts, ev, ctx, i) >= 1,
    decreases ts.len() - i,
{
    if i < w {
        lemma_count_ge_one(ts, ev, ctx, i + 1, w);
    }
    lemma_count_pos_first_some(ts, ev, ctx, i + 1);
}

/// Two distinct enabled witnesses put the count at two or more.
proof fn lemma_count_ge_two(
    ts: Seq<Transition>,
    ev: Option<u64>,
    ctx: Seq<i64>,
    i: int,
    w1: int,
    w2: int,
)
    requires
        0 <= i <= w1 < w2 < ts.len(),
        transition_enabled(ts[w1], ev, ctx),
        transition_enabled(ts[w2], ev, ctx),
    ensures
        count_enabled_from(ts, ev, ctx, i) >= 2,
    decreases ts.len() - i,
{
    if i == w1 {
        lemma_count_ge_one(ts, ev, ctx, i + 1, w2);
    } else {
        lemma_count_ge_two(ts, ev, ctx, i + 1, w1, w2);
        lemma_count_pos_first_some(ts, ev, ctx, i + 1);
    }
}

/// Two transitions of one active state that both match the event with all
/// guards holding are a conflict: posting the event reports it and leaves
/// the active configuration, the context and the lifecycle value exactly
/// as they were before the call.
pub proof fn lemma_conflicting_transitions_rejected(
    m: StateMachine,
    active: Seq<Seq<char>>,
    ev: u64,
    ctx: Seq<i64>,
    k: int,
    j1: int,
    j2: int,
)
    requires
        0 <= k < active.len(),
        match find_state(m, active[k]) {
            Some(s) => 0 <= j1 < j2 < s.spec_transitions().len() && transition_enabled(
                s.spec_transitions()[j1],
                Some(ev),
                ctx,
            ) && transition_enabled(s.spec_transitions()[j2], Some(ev), ctx),
            None => false,
        },
    ensures
        post_spec(m, active, ev, ctx) == (StepOut {
            active,
            ctx,
            status: ExecutionState::Active,
            result: Err(ErrorKind::MoreThanOneTransition),
        }),
{
    match find_state(m, active[k]) {
        Some(s) => {
            lemma_count_ge_two(s.spec_transitions(), Some(ev), ctx, 0, j1, j2);
            assert(conflict_in(m, active, ev, ctx));
        },
        None => {},
    }
}

/// A step that succeeds finishes the instance exactly when the new active
/// configuration is complete: non-empty with every member a final state.
pub proof fn lemma_completion_decides_the_lifecycle(
    m: StateMachine,
    active: Seq<Seq<char>>,
    ev: u64,
    ctx: Seq<i64>,
)
    ensures
        ({
            let o = post_spec(m, active, ev, ctx);
            o.result is Ok ==> (o.status is Done <==> config_done(m, o.active))
        }),
        ({
            let o = execute_spec(m, ctx);
            o.result is Ok ==> (o.status is Done <==> config_done(m, o.active))
        }),
{
}

/// A runtime instance of one state machine: a shared reference to the
/// validated model, the exclusively owned active configuration and context
/// payload, and the lifecycle value.
#[derive(Debug)]
pub struct StateMachineInstance {
    id: StateID,
    chart: Rc<StateMachine>,
    active: Vec<StateID>,
    context: Vec<i64>,
    state: ExecutionState,
}

impl StateMachineInstance {
    /// The shared model this instance executes.
    pub closed spec fn spec_chart(self) -> StateMachine {
        *self.chart
    }

    /// The instance's own identifier text.
    pub closed spec fn spec_id(self) -> Seq<char> {
        self.id@
    }

    /// The active configuration: the currently active leaf states.
    pub closed spec fn spec_active(self) -> Seq<StateID> {
        self.active@
    }

    /// The context payload.
    pub closed spec fn spec_context(self) -> Seq<i64> {
        self.context@
    }

    /// The lifecycle value.
    pub closed spec fn spec_state(self) -> ExecutionState {
        self.state
    }

    /// The invariant carried by every instance: the model was validated,
    /// nothing is active before the first execution, the configuration is
    /// a set (no identifier repeats), and an active instance's
    /// configuration is never complete.
    #[verifier::type_invariant]
    spec fn inv(self) -> bool {
        &&& machine_invariants(*self.chart)
        &&& (self.state is New ==> self.active@.len() == 0)
        &&& ids_view(self.active@).no_duplicates()
        &&& (self.state is Active ==> !config_done(*self.chart, ids_view(self.active@)))
    }

    /// A new instance of a validated model, with the given initial context
    /// payload. The model must have passed validation.
    pub fn new(chart: Rc<StateMachine>, context: Vec<i64>) -> (r: Self)
        requires
            validate_spec(*chart) is Ok,
        ensures
            r.spec_chart() == *chart,
            r.spec_active() == Seq::<StateID>::empty(),
            r.spec_context() == context@,
            r.spec_state() is New,
    {
        let chart_ref: &StateMachine = &*chart;
        proof {
            crate::definition::lemma_validate_ok_iff_invariants(*chart_ref);
        }
        let id = match StateID::random_with_prefix("execution") {
            Ok(i) => i,
            Err(_) => StateID::random(),
        };
        let r = StateMachineInstance {
            id,
            chart,
            active: Vec::new(),
            context,
            state: ExecutionState::New,
        };
        proof {
            assert(r.spec_active() =~= Seq::<StateID>::empty());
            assert(ids_view(r.spec_active()) =~= Seq::<Seq<char>>::empty());
        }
        r
    }

    /// The shared model this instance executes.
    pub fn chart(&self) -> (r: &StateMachine)
        ensures
            *r == self.spec_chart(),
    {
        &*self.chart
    }

    /// The instance's own identifier.
    pub fn id(&self) -> (r: StateID)
        ensures
            r@ == self.spec_id(),
    {
        self.id.clone()
    }

    /// A snapshot of the active configuration, in resolution order. The
    /// configuration is a set: no identifier repeats, also when several
    /// orthogonal regions reach the same state.
    pub fn active_states(&self) -> (r: &Vec<StateID>)
        ensures
            r@ == self.spec_active(),
            ids_view(r@).no_duplicates(),
    {
        proof {
            use_type_invariant(&*self);
        }
        &self.active
    }

    /// The context payload.
    pub fn context(&self) -> (r: &Vec<i64>)
        ensures
            r@ == self.spec_context(),
    {
        &self.context
    }

    /// Whether the instance is active and consuming events.
    pub fn is_active(&self) -> (r: bool)
        ensures
            r == (self.spec_state() is Active),
    {
        match self.state {
            ExecutionState::Active => true,
            _ => false,
        }
    }

    /// Whether the instance has finished.
    pub fn is_done(&self) -> (r: bool)
        ensures
            r == (self.spec_state() is Done),
    {
        match self.state {
            ExecutionState::Done => true,
            _ => false,
        }
    }

    /// Whether an aborted action forced the instance into its error
    /// lifecycle value.
    pub fn is_in_error(&self) -> (r: bool)
        ensures
            r == (self.spec_state() is Error),
    {
        match self.state {
            ExecutionState::Error => true,
            _ => false,
        }
    }

    /// The set of events any currently active state could handle, without
    /// duplicates: exactly the events for which [`accepts_event`] holds of
    /// the active configuration.
    pub fn accepts(&self) -> (r: Vec<u64>)
        ensures
            r@.no_duplicates(),
            forall|x: int|
                0 <= x < r@.len() ==> accepts_event(
                    self.spec_chart(),
                    ids_view(self.spec_active()),
                    #[trigger] r@[x],
                ),
            forall|k: int|
                0 <= k < self.spec_active().len() ==> (match find_state(
                    self.spec_chart(),
                    #[trigger] ids_view(self.spec_active())[k],
                ) {
                    Some(s) => forall|j: int|
                        0 <= j < s.spec_transitions().len() ==> (match (
                        #[trigger] s.spec_transitions()[j]).spec_event() {
                            Some(e) => r@.contains(e),
                            None => true,
                        }),
                    None => true,
                }),
    {
        let n = self.active.len();
        let mut r: Vec<u64> = Vec::new();
        let mut i: usize = 0;
        while i < n
            invariant
                n == self.spec_active().len(),
                i <= n,
                r@.no_duplicates(),
                forall|x: int|
                    0 <= x < r@.len() ==> accepts_event(
                        self.spec_chart(),
                        ids_view(self.spec_active()),
                        #[trigger] r@[x],
                    ),
                forall|k: int|
                    0 <= k < i ==> (match find_state(
                        self.spec_chart(),
                        #[trigger] ids_view(self.spec_active())[k],
                    ) {
                        Some(s) => forall|j: int|
                            0 <= j < s.spec_transitions().len() ==> (match (
                            #[trigger] s.spec_transitions()[j]).spec_event() {
                                Some(e) => r@.contains(e),
                                None => true,
                            }),
                        None => true,
                    }),
            decreases n - i,
        {
            proof {
                assert(ids_view(self.spec_active())[i as int] == self.spec_active()[i as int]@);
            }
            match self.chart.get_state(&self.active[i]) {
                None => {},
                Some(s) => {
                    let sub = s.accepts();
                    let m = sub.len();
                    let mut y: usize = 0;
                    while y < m
                        invariant
                            n == self.spec_active().len(),
                            i < n,
                            m == sub@.len(),
                            y <= m,
                            r@.no_duplicates(),
                            find_state(
                                self.spec_chart(),
                                ids_view(self.spec_active())[i as int],
                            ) == Some(*s),
                            forall|x: int|
                                0 <= x < sub@.len() ==> crate::definition::state_accepts(
                                    *s,
                                    #[trigger] sub@[x],
                                ),
                            forall|x: int|
                                0 <= x < r@.len() ==> accepts_event(
                                    self.spec_chart(),
                                    ids_view(self.spec_active()),
                                    #[trigger] r@[x],
                                ),
                            forall|x: int| 0 <= x < y ==> r@.contains(#[trigger] sub@[x]),
                            forall|k: int|
                                0 <= k < i ==> (match find_state(
                                    self.spec_chart(),
                                    #[trigger] ids_view(self.spec_active())[k],
                                ) {
                                    Some(s2) => forall|j: int|
                                        0 <= j < s2.spec_transitions().len() ==> (match (
                                        #[trigger] s2.spec_transitions()[j]).spec_event() {
                                            Some(e) => r@.contains(e),
                                            None => true,
                                        }),
                                    None => true,
                                }),
                        decreases m - y,
                    {
                        if !crate::definition::vec_contains_u64(&r, sub[y]) {
                            let ghost r_old = r@;
                            r.push(sub[y]);
                            proof {
                                assert(accepts_event(
                                    self.spec_chart(),
                                    ids_view(self.spec_active()),
                                    r@[r@.len() - 1],
                                ));
                                assert forall|e: u64| r_old.contains(e) implies r@.contains(e) by {
                                    let w = choose|z: int| 0 <= z < r_old.len() && r_old[z] == e;
                                    assert(r@[w] == e);
                                }
                            }
                        } else {
                            proof {
                                assert(r@.contains(sub@[y as int]));
                            }
                        }
                        y = y + 1;
                    }
                    proof {
                        assert forall|j: int|
                            0 <= j < s.spec_transitions().len() implies (match (
                        #[trigger] s.spec_transitions()[j]).spec_event() {
                            Some(e) => r@.contains(e),
                            None => true,
                        }) by {
                            match s.spec_transitions()[j].spec_event() {
                                Some(e) => {
                                    assert(sub@.contains(e));
                                    let w = choose|z: int| 0 <= z < sub@.len() && sub@[z] == e;
                                    assert(r@.contains(sub@[w]));
                                },
                                None => {},
                            }
                        }
                    }
                },
            }
            i = i + 1;
        }
        r
    }

    /// Performs the initial execution, exactly as [`execute_spec`]
    /// prescribes: valid only before the first execution; runs the
    /// machine-level init actions, enters the initial state through the
    /// entry sequence, and checks completion. A finished or failed
    /// instance, and one already active, refuse the call with the
    /// corresponding error and no observable change.
    pub fn execute(&mut self) -> (r: Result<(), ErrorKind>)
        ensures
            final(self).spec_chart() == old(self).spec_chart(),
            final(self).spec_id() == old(self).spec_id(),
            (old(self).spec_state() is Done || old(self).spec_state() is Error) ==> r == Err::<
                (),
                ErrorKind,
            >(ErrorKind::InstanceIsDone) && *final(self) == *old(self),
            old(self).spec_state() is Active ==> r == Err::<(), ErrorKind>(
                ErrorKind::InstanceIsActive,
            ) && *final(self) == *old(self),
            old(self).spec_state() is InAction ==> r == Err::<(), ErrorKind>(
                ErrorKind::EventDuringAction,
            ) && *final(self) == *old(self),
            old(self).spec_state() is New ==> ({
                let o = execute_spec(old(self).spec_chart(), old(self).spec_context());
                &&& ids_view(final(self).spec_active()) == o.active
                &&& final(self).spec_context() == o.ctx
                &&& final(self).spec_state() == o.status
                &&& r == o.result
            }),
    {
        proof {
            use_type_invariant(&*self);
        }
        match self.state {
            ExecutionState::Done | ExecutionState::Error => {
                return Err(ErrorKind::InstanceIsDone);
            },
            ExecutionState::Active => {
                return Err(ErrorKind::InstanceIsActive);
            },
            ExecutionState::InAction => {
                return Err(ErrorKind::EventDuringAction);
            },
            ExecutionState::New => {},
        }
        proof {
            assert(ids_view(self.active@) =~= Seq::<Seq<char>>::empty());
        }
        self.state = ExecutionState::InAction;
        let mut ctx: Vec<i64> = Vec::new();
        std::mem::swap(&mut ctx, &mut self.context);
        if !run_action_list(self.chart.init_actions(), &self.id, InternalEvent::Init, &mut ctx) {
            self.context = ctx;
            self.state = ExecutionState::Error;
            return Err(ErrorKind::ActionPanicked);
        }
        let initial = self.chart.initial_state_id();
        let fuel = self.chart.state_count();
        let res = enter_state(&*self.chart, &initial, &mut ctx, fuel);
        match res {
            Err(e) => {
                self.context = ctx;
                match e {
                    ErrorKind::ActionPanicked => {
                        self.state = ExecutionState::Error;
                    },
                    _ => {
                        self.state = ExecutionState::New;
                    },
                }
                Err(e)
            },
            Ok(leaves) => {
                let ghost raw = ids_view(leaves@);
                let leaves = dedup_ids(leaves);
                proof {
                    lemma_dedup_no_duplicates(raw, 0, Seq::<Seq<char>>::empty());
                }
                self.active = leaves;
                let done = config_is_done(&*self.chart, &self.active);
                if done {
                    if !run_action_list(self.chart.done_actions(), &self.id, InternalEvent::Done, &mut ctx) {
                        self.context = ctx;
                        self.state = ExecutionState::Error;
                        return Err(ErrorKind::ActionPanicked);
                    }
                    self.context = ctx;
                    self.state = ExecutionState::Done;
                    Ok(())
                } else {
                    self.context = ctx;
                    self.state = ExecutionState::Active;
                    Ok(())
                }
            },
        }
    }

    /// Posts one event, exactly as [`post_spec`] prescribes: valid only
    /// while active; a conflict under the pre-call context is reported
    /// with nothing changed, otherwise every active state is resolved
    /// against the event and completion is checked. A finished or failed
    /// instance, and one not yet executed, refuse the call with the
    /// corresponding error and no observable change.
    pub fn post(&mut self, event: u64) -> (r: Result<(), ErrorKind>)
        ensures
            final(self).spec_chart() == old(self).spec_chart(),
            final(self).spec_id() == old(self).spec_id(),
            (old(self).spec_state() is Done || old(self).spec_state() is Error) ==> r == Err::<
                (),
                ErrorKind,
            >(ErrorKind::InstanceIsDone) && *final(self) == *old(self),
            old(self).spec_state() is New ==> r == Err::<(), ErrorKind>(
                ErrorKind::InstanceIsNotActive,
            ) && *final(self) == *old(self),
            old(self).spec_state() is InAction ==> r == Err::<(), ErrorKind>(
                ErrorKind::EventDuringAction,
            ) && *final(self) == *old(self),
            old(self).spec_state() is Active ==> ({
                let o = post_spec(
                    old(self).spec_chart(),
                    ids_view(old(self).spec_active()),
                    event,
                    old(self).spec_context(),
                );
                &&& ids_view(final(self).spec_active()) == o.active
                &&& final(self).spec_context() == o.ctx
                &&& final(self).spec_state() == o.status
                &&& r == o.result
            }),
    {
        proof {
            use_type_invariant(&*self);
        }
        match self.state {
            ExecutionState::Done | ExecutionState::Error => {
                return Err(ErrorKind::InstanceIsDone);
            },
            ExecutionState::New => {
                return Err(ErrorKind::InstanceIsNotActive);
            },
            ExecutionState::InAction => {
                return Err(ErrorKind::EventDuringAction);
            },
            ExecutionState::Active => {},
        }
        if scan_conflicts(&*self.chart, &self.active, event, &self.context) {
            return Err(ErrorKind::MoreThanOneTransition);
        }
        self.state = ExecutionState::InAction;
        let mut ctx: Vec<i64> = Vec::new();
        std::mem::swap(&mut ctx, &mut self.context);
        let fuel = self.chart.state_count();
        let res = post_list(&*self.chart, &self.active, 0, event, &mut ctx, fuel);
        match res {
            Err(e) => {
                self.context = ctx;
                match e {
                    ErrorKind::ActionPanicked => {
                        self.state = ExecutionState::Error;
                    },
                    _ => {
                        self.state = ExecutionState::Active;
                    },
                }
                Err(e)
            },
            Ok(leaves) => {
                let ghost raw = ids_view(leaves@);
                let leaves = dedup_ids(leaves);
                proof {
                    lemma_dedup_no_duplicates(raw, 0, Seq::<Seq<char>>::empty());
                }
                self.active = leaves;
                let done = config_is_done(&*self.chart, &self.active);
                if done {
                    if !run_action_list(self.chart.done_actions(), &self.id, InternalEvent::Done, &mut ctx) {
                        self.context = ctx;
                        self.state = ExecutionState::Error;
                        return Err(ErrorKind::ActionPanicked);
                    }
                    self.context = ctx;
                    self.state = ExecutionState::Done;
                    Ok(())
                } else {
                    self.context = ctx;
                    self.state = ExecutionState::Active;
                    Ok(())
                }
            },
        }
    }
}

} // verus!
