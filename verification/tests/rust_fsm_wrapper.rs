use maintenance_fsm::engine::TransitionEngine;
use maintenance_fsm::machine::{
    MyMachine, State, TransitionEvent, TransitionOutput, TransitionRequest,
};
use rust_fsm::{StateMachine, StateMachineImpl};

/// The machine's definition in the form `rust_fsm` takes.
struct Definition;

impl StateMachineImpl for Definition {
    type Input = TransitionRequest;
    type State = State;
    type Output = TransitionOutput;
    const INITIAL_STATE: State = MyMachine::INITIAL_STATE;

    fn transition(state: &State, input: &TransitionRequest) -> Option<State> {
        MyMachine::transition(state, input)
    }

    fn output(state: &State, input: &TransitionRequest) -> Option<TransitionOutput> {
        MyMachine::output(state, input)
    }
}

fn requests() -> Vec<TransitionRequest> {
    let mut all = Vec::new();
    for desired_event in [
        TransitionEvent::InitMaintenance,
        TransitionEvent::WaitingForTaskACompleted,
    ] {
        for requester_is_privileged in [true, false] {
            all.push(TransitionRequest {
                desired_event,
                requester_is_privileged,
            });
        }
    }
    all
}

#[test]
fn wrapper_starts_where_the_engine_starts() {
    let wrapper: StateMachine<Definition> = StateMachine::new();
    assert_eq!(*wrapper.state(), TransitionEngine::new().current_state());
    assert_eq!(wrapper.state(), &State::Active);
}

#[test]
fn wrapper_accepts_privileged_maintenance_request() {
    let mut machine: StateMachine<Definition> = StateMachine::new();
    let i = TransitionRequest {
        desired_event: TransitionEvent::InitMaintenance,
        requester_is_privileged: true,
    };
    let res = machine.consume(&i).unwrap();
    assert_eq!(res, None);
    assert_eq!(machine.state(), &State::CreateTaskA);
}

#[test]
fn wrapper_rejects_unprivileged_maintenance_request() {
    let mut machine: StateMachine<Definition> = StateMachine::new();
    let i = TransitionRequest {
        desired_event: TransitionEvent::InitMaintenance,
        requester_is_privileged: false,
    };
    let res = machine.consume(&i);
    assert!(res.is_err(), "Transition not allowed");
    assert_eq!(machine.state(), &State::Active);
}

#[test]
fn wrapper_rejects_completion_signal_when_active() {
    let mut machine: StateMachine<Definition> = StateMachine::new();
    let i = TransitionRequest {
        desired_event: TransitionEvent::WaitingForTaskACompleted,
        requester_is_privileged: true,
    };
    let res = machine.consume(&i);
    assert!(res.is_err(), "Transition not allowed");
    assert_eq!(machine.state(), &State::Active);
}

/// Walks every sequence of three requests through the engine and through
/// `rust_fsm`'s wrapper side by side.
#[test]
fn engine_and_wrapper_agree_on_every_run_of_three_requests() {
    let all = requests();
    for first in &all {
        for second in &all {
            for third in &all {
                let mut engine = TransitionEngine::new();
                let mut wrapper: StateMachine<Definition> = StateMachine::new();
                for req in [first, second, third] {
                    let ours = engine.submit(req);
                    let theirs = wrapper.consume(req);
                    assert_eq!(ours.is_ok(), theirs.is_ok());
                    assert_eq!(ours.ok(), theirs.ok());
                    assert_eq!(engine.current_state(), *wrapper.state());
                }
            }
        }
    }
}

#[test]
fn engine_and_wrapper_agree_from_every_state() {
    let states = [
        State::Active,
        State::CreateTaskA,
        State::WaitingForTaskACompleted,
    ];
    for state in states {
        for req in requests() {
            let mut wrapper: StateMachine<Definition> = StateMachine::from_state(state);
            let consumed = wrapper.consume(&req);
            match MyMachine::transition(&state, &req) {
                Some(next) => {
                    assert_eq!(consumed.ok(), Some(None));
                    assert_eq!(wrapper.state(), &next);
                }
                None => {
                    assert!(consumed.is_err());
                    assert_eq!(wrapper.state(), &state);
                }
            }
        }
    }
}
