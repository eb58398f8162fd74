use chess_validator::backend::decode;
use chess_validator::backend::prove;
use chess_validator::backend::setup;
use chess_validator::backend::verify;
use chess_validator::backend::VerifyError;
use chess_validator::codec::DecodeError;
use chess_validator::moves::validate;
use chess_validator::moves::MoveInput;
use chess_validator::orchestrator::check_move_input;
use chess_validator::orchestrator::step;
use chess_validator::orchestrator::Event;
use chess_validator::orchestrator::OrchestratorState;
use chess_validator::orchestrator::PipelineError;

#[test]
fn test_lifecycle_happy_path() {
    let guest = vec![42, 0, 7];
    let input = MoveInput { from: 52, to: 36, move_number: 1 };

    let state = OrchestratorState::Idle;
    let state = step(state, Event::Supply { input });
    assert!(matches!(state, OrchestratorState::Prepared { .. }));

    let (pk, vk) = setup(&guest);
    let state = step(state, Event::SetupDone { pk, vk });
    assert!(matches!(state, OrchestratorState::KeysReady { .. }));

    let artifact = prove(&pk, &input);
    let state = step(state, Event::ProveDone { artifact: artifact.clone() });
    assert!(matches!(state, OrchestratorState::Proved { .. }));

    let state = step(state, Event::VerifyFinished { result: verify(&artifact, &vk) });
    assert!(matches!(state, OrchestratorState::Verified { .. }));

    let state = step(state, Event::DecodeFinished { result: decode(&artifact) });
    match state {
        OrchestratorState::Reported { output } => assert_eq!(output, validate(&input)),
        other => panic!("expected a report, reached {:?}", other),
    }
}

#[test]
fn test_verify_failure_is_fatal() {
    let guest = vec![42, 0, 7];
    let input = MoveInput { from: 5, to: 6, move_number: 2 };
    let (pk, vk) = setup(&guest);
    let artifact = prove(&pk, &input);

    let state = OrchestratorState::Proved { vk, artifact };
    let state = step(
        state,
        Event::VerifyFinished { result: Err(VerifyError::SealMismatch) },
    );
    assert_eq!(
        state,
        OrchestratorState::Failed {
            error: PipelineError::VerificationFailure(VerifyError::SealMismatch)
        }
    );
}

#[test]
fn test_decode_failure_is_fatal() {
    let guest = vec![42, 0, 7];
    let input = MoveInput { from: 5, to: 6, move_number: 2 };
    let (pk, _vk) = setup(&guest);
    let artifact = prove(&pk, &input);

    let state = OrchestratorState::Verified { artifact };
    let state = step(
        state,
        Event::DecodeFinished { result: Err(DecodeError::WrongLength) },
    );
    assert_eq!(
        state,
        OrchestratorState::Failed { error: PipelineError::DecodeFailure(DecodeError::WrongLength) }
    );
}

#[test]
fn test_cancel_returns_to_keys_ready() {
    let guest = vec![42, 0, 7];
    let input = MoveInput { from: 5, to: 6, move_number: 2 };
    let (pk, vk) = setup(&guest);

    let state = OrchestratorState::KeysReady { input, pk, vk };
    let state = step(state, Event::ProveCancelled);
    assert_eq!(state, OrchestratorState::KeysReady { input, pk, vk });
}

#[test]
fn test_unexpected_event_leaves_state_unchanged() {
    let state = OrchestratorState::Idle;
    let state = step(state, Event::ProveFailed);
    assert_eq!(state, OrchestratorState::Idle);

    let input = MoveInput { from: 1, to: 2, move_number: 3 };
    let state = OrchestratorState::Prepared { input };
    let state = step(state, Event::Supply { input });
    assert_eq!(state, OrchestratorState::Prepared { input });
}

#[test]
fn test_setup_and_prove_failures_reach_failed() {
    let input = MoveInput { from: 1, to: 2, move_number: 3 };
    let state = OrchestratorState::Prepared { input };
    let state = step(state, Event::SetupFailed);
    assert_eq!(state, OrchestratorState::Failed { error: PipelineError::SetupFailure });

    let guest = vec![9];
    let (pk, vk) = setup(&guest);
    let state = OrchestratorState::KeysReady { input, pk, vk };
    let state = step(state, Event::ProveFailed);
    assert_eq!(state, OrchestratorState::Failed { error: PipelineError::ProvingFailure });
}

#[test]
fn test_check_move_input_gate() {
    assert_eq!(check_move_input(&MoveInput { from: 52, to: 36, move_number: 1 }), Ok(()));
    assert_eq!(
        check_move_input(&MoveInput { from: 52, to: 52, move_number: 1 }),
        Err(PipelineError::InvalidInput)
    );
    assert_eq!(
        check_move_input(&MoveInput { from: 52, to: 36, move_number: 0 }),
        Err(PipelineError::InvalidInput)
    );
}
