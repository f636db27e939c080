//! The machine's alphabet and its guarded transition table.

use vstd::prelude::*;

verus! {

/// A phase of the lifecycle. The machine is in exactly one of them at any time.
#[derive(Clone, Copy, Debug, PartialEq, Eq, Structural)]
pub enum State {
    /// Where every machine starts.
    Active,
    /// Maintenance was initiated by a privileged requester.
    CreateTaskA,
    /// Task A was reported as completed. No rule leads out of this state.
    WaitingForTaskACompleted,
}

/// What a caller asks the machine to do.
#[derive(Clone, Copy, Debug, PartialEq, Eq, Structural)]
pub enum TransitionEvent {
    /// Begin maintenance.
    InitMaintenance,
    /// Signal that task A has completed.
    WaitingForTaskACompleted,
}

/// An event together with the caller's authorization.
///
/// The flag is taken as given: whoever builds the request decides it.
#[derive(Clone, Copy, Debug, PartialEq, Eq, Structural)]
pub struct TransitionRequest {
    /// The transition the caller wants.
    pub desired_event: TransitionEvent,
    /// Whether the caller may initiate maintenance.
    pub requester_is_privileged: bool,
}

/// Marker for a side effect that a transition signals. No rule produces one yet.
#[derive(Clone, Copy, Debug, PartialEq, Eq, Structural)]
pub struct TransitionOutput;

/// The definition of the machine: its initial state, transition function and
/// output function.
#[derive(Debug)]
pub struct MyMachine;

impl MyMachine {
    /// The state of a machine that has accepted no request yet.
    pub const INITIAL_STATE: State = State::Active;

    /// The transition table, one branch per rule: the state that `request`
    /// leads to from `state`, or `None` where no rule matches the pair of
    /// state and event or the matching rule's guard fails.
    pub open spec fn next_state(state: State, request: TransitionRequest) -> Option<State> {
        if state == State::Active && request.desired_event == TransitionEvent::InitMaintenance
            && request.requester_is_privileged {
            Some(State::CreateTaskA)
        } else if state == State::CreateTaskA && request.desired_event
            == TransitionEvent::WaitingForTaskACompleted {
            Some(State::WaitingForTaskACompleted)
        } else {
            None
        }
    }

    /// Looks `input` up in the transition table for `state`.
    pub fn transition(state: &State, input: &TransitionRequest) -> (next: Option<State>)
        ensures
            next == Self::next_state(*state, *input),
    {
        match (state, input.desired_event) {
            (State::Active, TransitionEvent::InitMaintenance) => {
                if input.requester_is_privileged {
                    Some(State::CreateTaskA)
                } else {
                    None
                }
            },
            (State::CreateTaskA, TransitionEvent::WaitingForTaskACompleted) => Some(
                State::WaitingForTaskACompleted,
            ),
            _ => None,
        }
    }

    /// The output that accompanies a transition: none, for every state and request.
    pub fn output(_state: &State, _input: &TransitionRequest) -> (out: Option<TransitionOutput>)
        ensures
            out is None,
    {
        None
    }
}

} // verus!
