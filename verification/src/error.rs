//! A common error kind enumeration shared by the validator and the
//! execution engine, together with a textual description for each kind.

use vstd::prelude::*;

verus! {

/// Every failure the library can report, both structural defects found by
/// the validator and misuses of a running instance.
#[derive(Clone, Copy, Debug, PartialEq, Eq, Structural)]
pub enum ErrorKind {
    /// The state table of a machine is empty.
    ChartStatesEmpty,
    /// The machine's initial pointer names a state that is not of the
    /// initial kind.
    ChartInvalidInitialStateKind,
    /// The machine's initial pointer names a state that does not exist.
    ChartInvalidInitialStateName,
    /// The machine contains no final state.
    ChartNoFinalState,
    /// A composite or orthogonal state has an empty child list.
    StateChildStatesEmpty,
    /// A composite state's nominated initial child is missing or is not a
    /// state of the initial kind.
    StateInitialState,
    /// An initial state has inbound transitions.
    InitialStateTransitions,
    /// A final state has outbound transitions.
    FinalStateTransitions,
    /// A transition carries none of an event, a target, or a guard.
    TransitionTrigger,
    /// A transition names a target state that does not exist.
    TransitionTargetState,
    /// A state has multiple live outbound transitions.
    StateMultipleOutbound,
    /// The instance has already reached a terminal lifecycle value.
    InstanceIsDone,
    /// The instance is already active; it may only be started once.
    InstanceIsActive,
    /// The instance has not been started; it must be started before an
    /// event may be posted.
    InstanceIsNotActive,
    /// More than one transition is enabled for one active state.
    MoreThanOneTransition,
    /// An action run for an active state aborted abnormally.
    ActionPanicked,
    /// An event may not be posted while an action is running in a
    /// synchronous execution.
    EventDuringAction,
}

impl ErrorKind {
    /// A short human-readable description of the error kind.
    pub fn description(&self) -> String {
        match self {
            ErrorKind::ChartStatesEmpty => "states may not be empty".to_owned(),
            ErrorKind::ChartInvalidInitialStateKind => {
                "initial is set to the ID of a non-initial state".to_owned()
            },
            ErrorKind::ChartInvalidInitialStateName => {
                "initial is set to the ID of a non-existent state".to_owned()
            },
            ErrorKind::ChartNoFinalState => "states contains no final states".to_owned(),
            ErrorKind::StateChildStatesEmpty => {
                "child states may not be empty for composite or orthogonal states".to_owned()
            },
            ErrorKind::StateInitialState => {
                "state initial is either missing or not a valid initial state".to_owned()
            },
            ErrorKind::InitialStateTransitions => {
                "initial states may not have inbound transitions".to_owned()
            },
            ErrorKind::FinalStateTransitions => {
                "final states may not have outbound transitions".to_owned()
            },
            ErrorKind::TransitionTrigger => {
                "transition must have at least one of event, target, or conditions".to_owned()
            },
            ErrorKind::TransitionTargetState => {
                "transition target is either missing or not a valid state".to_owned()
            },
            ErrorKind::StateMultipleOutbound => {
                "state has multiple live outbound transitions".to_owned()
            },
            ErrorKind::InstanceIsDone => "instance is already in a done state".to_owned(),
            ErrorKind::InstanceIsActive => {
                "instance is active, execute may only be called once".to_owned()
            },
            ErrorKind::InstanceIsNotActive => {
                "instance is not active, execute must be called before post".to_owned()
            },
            ErrorKind::MoreThanOneTransition => {
                "more than one transition is active for an active state".to_owned()
            },
            ErrorKind::ActionPanicked => {
                "an action executed for an active state panicked".to_owned()
            },
            ErrorKind::EventDuringAction => {
                "an event may not be posted while an action is running".to_owned()
            },
        }
    }
}

} // verus!
