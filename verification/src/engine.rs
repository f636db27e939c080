//! The engine: one current state, changed only by accepted requests.

use crate::machine::{MyMachine, State, TransitionOutput, TransitionRequest};
use vstd::prelude::*;

verus! {

/// The requested transition is not permitted from the current state under the
/// request's context. Whether no rule matched or a guard failed is not told apart.
#[derive(Clone, Copy, Debug, PartialEq, Eq, Structural)]
pub struct TransitionRejected;

/// Holds the current state of one machine and applies requests to it.
///
/// The state is private: it is read through [`TransitionEngine::current_state`]
/// and changes only in [`TransitionEngine::submit`].
#[derive(Debug)]
pub struct TransitionEngine {
    state: State,
}

impl View for TransitionEngine {
    type V = State;

    /// An engine is modelled by the state it is in.
    closed spec fn view(&self) -> State {
        self.state
    }
}

impl TransitionEngine {
    /// The state an engine is in after `request` was submitted in `state`:
    /// the rule's target where the table permits the request, `state` itself
    /// where it does not.
    pub open spec fn state_after(state: State, request: TransitionRequest) -> State {
        match MyMachine::next_state(state, request) {
            Some(next) => next,
            None => state,
        }
    }

    /// What submitting `request` in `state` returns: success without an
    /// output where the table permits the request, the rejection otherwise.
    pub open spec fn outcome(state: State, request: TransitionRequest) -> Result<
        Option<TransitionOutput>,
        TransitionRejected,
    > {
        if MyMachine::next_state(state, request) is Some {
            Ok(None)
        } else {
            Err(TransitionRejected)
        }
    }

    /// An engine in the initial state.
    pub fn new() -> (engine: Self)
        ensures
            engine@ == MyMachine::INITIAL_STATE,
    {
        TransitionEngine { state: MyMachine::INITIAL_STATE }
    }

    /// The state the engine is in.
    pub fn current_state(&self) -> (state: State)
        ensures
            state == self@,
    {
        self.state
    }

    /// Evaluates the transition table for the current state and `request`.
    ///
    /// A permitted request moves the engine to the rule's target state and
    /// returns `Ok` with the transition's output, which is `None` for every
    /// rule. Any other request returns `Err(TransitionRejected)` and leaves
    /// the engine as it was.
    pub fn submit(&mut self, request: &TransitionRequest) -> (result: Result<
        Option<TransitionOutput>,
        TransitionRejected,
    >)
        ensures
            final(self)@ == Self::state_after(old(self)@, *request),
            result == Self::outcome(old(self)@, *request),
    {
        match MyMachine::transition(&self.state, request) {
            Some(next) => {
                let output = MyMachine::output(&self.state, request);
                self.state = next;
                Ok(output)
            },
            None => Err(TransitionRejected),
        }
    }
}

impl Clone for TransitionEngine {
    /// A second engine in the same state. The two change independently.
    fn clone(&self) -> (copy: Self)
        ensures
            copy@ == self@,
    {
        TransitionEngine { state: self.state }
    }
}

impl Default for TransitionEngine {
    /// Same as [`TransitionEngine::new`].
    fn default() -> (engine: Self)
        ensures
            engine@ == MyMachine::INITIAL_STATE,
    {
        TransitionEngine::new()
    }
}

} // verus!
