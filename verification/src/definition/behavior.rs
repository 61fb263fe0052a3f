//! Guard conditions and actions: the closed capability interface through
//! which a state machine reads and mutates its instance's context payload.
//!
//! A guard is a side-effect-free predicate over the context; an action is a
//! small mutation of the context. One action capability, [`ActionEffect::Abort`],
//! stands for a callback that terminates abnormally: the engine catches it,
//! forces the instance into its error lifecycle value, and reports it.

use vstd::prelude::*;

use crate::definition::InternalEvent;
use crate::tag::StateID;

verus! {

/// The predicate a guard condition evaluates over the context payload.
#[derive(Clone, Copy, Debug, PartialEq, Eq, Structural)]
pub enum GuardExpr {
    /// Holds of every context.
    Always,
    /// Holds of no context.
    Never,
    /// Holds when the context slot exists and holds exactly `value`.
    SlotEquals { slot: usize, value: i64 },
    /// Holds when the context slot exists and holds at least `value`.
    SlotAtLeast { slot: usize, value: i64 },
}

/// The value of a guard predicate on a given context.
pub open spec fn eval_guard(g: GuardExpr, ctx: Seq<i64>) -> bool {
    match g {
        GuardExpr::Always => true,
        GuardExpr::Never => false,
        GuardExpr::SlotEquals { slot, value } => slot < ctx.len() && ctx[slot as int] == value,
        GuardExpr::SlotAtLeast { slot, value } => slot < ctx.len() && ctx[slot as int] >= value,
    }
}

/// The mutation an action applies to the context payload.
#[derive(Clone, Copy, Debug, PartialEq, Eq, Structural)]
pub enum ActionEffect {
    /// Leaves the context unchanged.
    NoOp,
    /// Stores `value` into the context slot, if the slot exists.
    SetSlot { slot: usize, value: i64 },
    /// Adds `value` to the context slot with wrapping arithmetic, if the
    /// slot exists.
    AddSlot { slot: usize, value: i64 },
    /// Terminates abnormally; the context is left unchanged and the engine
    /// reports the abort.
    Abort,
}

/// The context that results from applying an action effect.
pub open spec fn apply_effect(e: ActionEffect, ctx: Seq<i64>) -> Seq<i64> {
    match e {
        ActionEffect::NoOp => ctx,
        ActionEffect::SetSlot { slot, value } => if slot < ctx.len() {
            ctx.update(slot as int, value)
        } else {
            ctx
        },
        ActionEffect::AddSlot { slot, value } => if slot < ctx.len() {
            ctx.update(slot as int, vstd::wrapping::i64_specs::wrapping_add(ctx[slot as int], value))
        } else {
            ctx
        },
        ActionEffect::Abort => ctx,
    }
}

/// True of the one effect that terminates abnormally.
pub open spec fn effect_aborts(e: ActionEffect) -> bool {
    e is Abort
}

/// A guard condition: a labelled, side-effect-free predicate evaluated
/// against a state, an optional event and the context.
#[derive(Debug)]
pub struct Condition {
    label: Option<String>,
    condition: GuardExpr,
}

impl Condition {
    /// The predicate this condition evaluates.
    pub closed spec fn spec_condition(self) -> GuardExpr {
        self.condition
    }

    /// The label attached to this condition, if any.
    pub closed spec fn spec_label(self) -> Option<Seq<char>> {
        match self.label {
            Some(l) => Some(l@),
            None => None,
        }
    }

    /// An unlabelled condition with the given predicate.
    pub fn new(condition: GuardExpr) -> (r: Self)
        ensures
            r.spec_condition() == condition,
            r.spec_label() is None,
    {
        Condition { label: None, condition }
    }

    /// A labelled condition with the given predicate.
    pub fn with_label(condition: GuardExpr, label: &str) -> (r: Self)
        ensures
            r.spec_condition() == condition,
            r.spec_label() == Some(label@),
    {
        Condition { label: Some(label.to_owned()), condition }
    }

    /// Evaluates the condition. The state and event are carried for
    /// interface fidelity; the closed predicate set reads the context only.
    pub fn evaluate(&self, in_state: &StateID, on_event: &Option<u64>, context: &Vec<i64>) -> (r:
        bool)
        ensures
            r == eval_guard(self.spec_condition(), context@),
    {
        let _ = in_state;
        let _ = on_event;
        match &self.condition {
            GuardExpr::Always => true,
            GuardExpr::Never => false,
            GuardExpr::SlotEquals { slot, value } => *slot < context.len() && context[*slot]
                == *value,
            GuardExpr::SlotAtLeast { slot, value } => *slot < context.len() && context[*slot]
                >= *value,
        }
    }

    /// The label attached to this condition, if any.
    pub fn label(&self) -> (r: Option<String>)
        ensures
            match r {
                Some(l) => self.spec_label() == Some(l@),
                None => self.spec_label() is None,
            },
    {
        match &self.label {
            Some(l) => Some(l.clone()),
            None => None,
        }
    }
}

/// An action: a labelled mutation of the context payload, run when a state
/// is entered, run, or exited, or when a transition fires.
#[derive(Debug)]
pub struct Action {
    label: Option<String>,
    action: ActionEffect,
}

impl Action {
    /// The effect this action applies.
    pub closed spec fn spec_action(self) -> ActionEffect {
        self.action
    }

    /// The label attached to this action, if any.
    pub closed spec fn spec_label(self) -> Option<Seq<char>> {
        match self.label {
            Some(l) => Some(l@),
            None => None,
        }
    }

    /// An unlabelled action with the given effect.
    pub fn new(action: ActionEffect) -> (r: Self)
        ensures
            r.spec_action() == action,
            r.spec_label() is None,
    {
        Action { label: None, action }
    }

    /// A labelled action with the given effect.
    pub fn with_label(action: ActionEffect, label: &str) -> (r: Self)
        ensures
            r.spec_action() == action,
            r.spec_label() == Some(label@),
    {
        Action { label: Some(label.to_owned()), action }
    }

    /// Runs the action against the context. Returns `false` when the action
    /// aborted; the context is then unchanged. The state and the phase tag
    /// are carried as the callback interface prescribes; the closed effect
    /// capabilities read the context alone.
    pub fn call(&self, in_state: &StateID, phase: InternalEvent, context: &mut Vec<i64>) -> (ok:
        bool)
        ensures
            final(context)@ == apply_effect(self.spec_action(), old(context)@),
            ok == !effect_aborts(self.spec_action()),
    {
        let _ = in_state;
        let _ = phase;
        match &self.action {
            ActionEffect::NoOp => true,
            ActionEffect::SetSlot { slot, value } => {
                if *slot < context.len() {
                    context[*slot] = *value;
                }
                true
            },
            ActionEffect::AddSlot { slot, value } => {
                if *slot < context.len() {
                    let current = context[*slot];
                    context[*slot] = current.wrapping_add(*value);
                }
                true
            },
            ActionEffect::Abort => false,
        }
    }

    /// The label attached to this action, if any.
    pub fn label(&self) -> (r: Option<String>)
        ensures
            match r {
                Some(l) => self.spec_label() == Some(l@),
                None => self.spec_label() is None,
            },
    {
        match &self.label {
            Some(l) => Some(l.clone()),
            None => None,
        }
    }
}

} // verus!
