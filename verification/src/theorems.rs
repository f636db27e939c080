//! What holds of the engine for every state and every request, proved from
//! the transition table.

use crate::engine::{TransitionEngine, TransitionRejected};
use crate::machine::{MyMachine, State, TransitionEvent, TransitionOutput, TransitionRequest};
use vstd::prelude::*;

verus! {

/// The state an engine that started in `state` is in after `requests` were
/// submitted one after the other, accepted or not.
pub open spec fn state_after_all(state: State, requests: Seq<TransitionRequest>) -> State
    decreases requests.len(),
{
    if requests.len() == 0 {
        state
    } else {
        TransitionEngine::state_after(
            state_after_all(state, requests.drop_last()),
            requests.last(),
        )
    }
}

/// A privileged maintenance request followed by a completion signal takes a
/// fresh engine to `WaitingForTaskACompleted`, both steps succeeding without
/// an output. The second rule has no guard: the completion signal's
/// privilege flag makes no difference.
pub proof fn lemma_maintenance_then_completion(completion_is_privileged: bool)
    ensures
        ({
            let init = TransitionRequest {
                desired_event: TransitionEvent::InitMaintenance,
                requester_is_privileged: true,
            };
            let completion = TransitionRequest {
                desired_event: TransitionEvent::WaitingForTaskACompleted,
                requester_is_privileged: completion_is_privileged,
            };
            let between = TransitionEngine::state_after(MyMachine::INITIAL_STATE, init);
            &&& TransitionEngine::outcome(MyMachine::INITIAL_STATE, init) matches Ok(None)
            &&& between == State::CreateTaskA
            &&& TransitionEngine::outcome(between, completion) matches Ok(None)
            &&& TransitionEngine::state_after(between, completion)
                == State::WaitingForTaskACompleted
        }),
{
}

/// `WaitingForTaskACompleted` is terminal: every request submitted there,
/// whatever its event and privilege flag, is rejected and the state stays.
pub proof fn lemma_terminal_state_rejects(request: TransitionRequest)
    ensures
        TransitionEngine::outcome(State::WaitingForTaskACompleted, request) matches Err(
            TransitionRejected,
        ),
        TransitionEngine::state_after(State::WaitingForTaskACompleted, request)
            == State::WaitingForTaskACompleted,
{
}

/// The state changes exactly when the request succeeds: no rule leads from a
/// state to itself, and a rejected request leaves the state as it was.
pub proof fn lemma_state_changes_iff_accepted(state: State, request: TransitionRequest)
    ensures
        TransitionEngine::outcome(state, request) is Ok <==> TransitionEngine::state_after(
            state,
            request,
        ) != state,
{
}

/// Rejection is idempotent: a rejected request leaves the state unchanged, so
/// submitting it again is rejected again, with the same error.
pub proof fn lemma_rejection_is_idempotent(state: State, request: TransitionRequest)
    requires
        TransitionEngine::outcome(state, request) is Err,
    ensures
        TransitionEngine::state_after(state, request) == state,
        TransitionEngine::outcome(state, request) matches Err(TransitionRejected),
        TransitionEngine::outcome(TransitionEngine::state_after(state, request), request)
            == TransitionEngine::outcome(state, request),
{
}

/// However many requests are submitted, as long as each of them is rejected
/// the engine stays in the state it started in, and each of them fails with
/// the same error.
pub proof fn lemma_rejected_requests_keep_state(state: State, requests: Seq<TransitionRequest>)
    requires
        forall|i: int|
            0 <= i < requests.len() ==> TransitionEngine::outcome(
                state_after_all(state, #[trigger] requests.take(i)),
                requests[i],
            ) is Err,
    ensures
        state_after_all(state, requests) == state,
        forall|i: int|
            0 <= i < requests.len() ==> {
                &&& state_after_all(state, #[trigger] requests.take(i)) == state
                &&& TransitionEngine::outcome(
                    state_after_all(state, requests.take(i)),
                    requests[i],
                ) matches Err(TransitionRejected)
            },
    decreases requests.len(),
{
    if requests.len() > 0 {
        // Induction on the number of requests: all but the last keep the
        // state, so the last one is submitted in `state` and keeps it too.
        let earlier = requests.drop_last();
        assert forall|i: int| 0 <= i < earlier.len() implies TransitionEngine::outcome(
            state_after_all(state, #[trigger] earlier.take(i)),
            earlier[i],
        ) is Err by {
            assert(earlier.take(i) == requests.take(i));
        }
        lemma_rejected_requests_keep_state(state, earlier);
        assert forall|i: int| 0 <= i < requests.len() implies state_after_all(
            state,
            #[trigger] requests.take(i),
        ) == state by {
            if i < earlier.len() {
                assert(requests.take(i) == earlier.take(i));
            } else {
                assert(requests.take(i) == earlier);
            }
        }
    }
}

} // verus!
