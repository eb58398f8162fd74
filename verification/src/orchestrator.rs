//! The host orchestrator: the linear proof lifecycle
//! `Idle -> Prepared -> KeysReady -> Proved -> Verified -> Reported`,
//! driven fail-closed — a proof that does not verify, or whose committed
//! output does not decode, can never end in a report.

use vstd::prelude::*;

use crate::backend::ProofArtifact;
use crate::backend::ProvingKey;
use crate::backend::VerifyError;
use crate::backend::VerifyingKey;
use crate::backend::artifact_bytes;
use crate::backend::decode;
use crate::backend::guest_id_of;
use crate::backend::lemma_fresh_artifact_verifies;
use crate::backend::lemma_prove_decode_round_trip;
use crate::backend::prove;
use crate::backend::setup;
use crate::backend::verify;
use crate::codec::DecodeError;
use crate::moves::MoveInput;
use crate::moves::MoveOutput;
use crate::moves::move_allowed;
use crate::moves::validated;

verus! {

/// The distinct failure outcomes of a proof run.
#[derive(Clone, Copy, PartialEq, Eq, Structural, Debug)]
pub enum PipelineError {
    /// The input violates the schema: out-of-range or equal squares, or a
    /// non-positive move number.  Surfaced before setup.
    InvalidInput,
    /// The backend could not derive keys for the guest binary.
    SetupFailure,
    /// The backend could not produce an artifact.
    ProvingFailure,
    /// The artifact failed verification; fatal to this proof's trust.
    VerificationFailure(VerifyError),
    /// The artifact verified but its committed record did not decode.
    DecodeFailure(DecodeError),
}

/// The structured result handed to the caller after a successful run.
#[derive(Clone, Copy, PartialEq, Eq, Structural, Debug)]
pub struct Report {
    pub proof_size_bytes: u64,
    pub proof_time_ms: u64,
    pub verified: bool,
    pub verify_time_ms: u64,
    pub output: MoveOutput,
}

/// Where the orchestrator stands in the proof lifecycle.
#[derive(PartialEq, Eq, Debug)]
pub enum OrchestratorState {
    Idle,
    Prepared { input: MoveInput },
    KeysReady { input: MoveInput, pk: ProvingKey, vk: VerifyingKey },
    Proved { vk: VerifyingKey, artifact: ProofArtifact },
    Verified { artifact: ProofArtifact },
    Reported { output: MoveOutput },
    Failed { error: PipelineError },
}

/// What the world reports back to the orchestrator: an input to work on, or
/// the outcome of one backend step.
#[derive(PartialEq, Eq, Debug)]
pub enum Event {
    Supply { input: MoveInput },
    SetupDone { pk: ProvingKey, vk: VerifyingKey },
    SetupFailed,
    ProveDone { artifact: ProofArtifact },
    ProveFailed,
    /// An in-flight proving attempt was cancelled; any partial artifact is
    /// discarded.
    ProveCancelled,
    VerifyFinished { result: Result<(), VerifyError> },
    DecodeFinished { result: Result<MoveOutput, DecodeError> },
}

/// The transition table of the lifecycle.  An event that does not belong to
/// the current state leaves it unchanged: the machine is linear and accepts
/// each step exactly once.
pub open spec fn next_state(state: OrchestratorState, event: Event) -> OrchestratorState {
    match (state, event) {
        (OrchestratorState::Idle, Event::Supply { input }) => (OrchestratorState::Prepared {
            input,
        }),
        (OrchestratorState::Prepared { input }, Event::SetupDone { pk, vk }) => (
        OrchestratorState::KeysReady { input, pk, vk }),
        (OrchestratorState::Prepared { .. }, Event::SetupFailed) => (OrchestratorState::Failed {
            error: PipelineError::SetupFailure,
        }),
        (OrchestratorState::KeysReady { vk, .. }, Event::ProveDone { artifact }) => (
        OrchestratorState::Proved { vk, artifact }),
        (OrchestratorState::KeysReady { .. }, Event::ProveFailed) => (OrchestratorState::Failed {
            error: PipelineError::ProvingFailure,
        }),
        (OrchestratorState::KeysReady { input, pk, vk }, Event::ProveCancelled) => (
        OrchestratorState::KeysReady { input, pk, vk }),
        (OrchestratorState::Proved { artifact, .. }, Event::VerifyFinished { result: Ok(()) }) => (
        OrchestratorState::Verified { artifact }),
        (
            OrchestratorState::Proved { .. },
            Event::VerifyFinished { result: Err(e) },
        ) => (OrchestratorState::Failed { error: PipelineError::VerificationFailure(e) }),
        (
            OrchestratorState::Verified { .. },
            Event::DecodeFinished { result: Ok(output) },
        ) => (OrchestratorState::Reported { output }),
        (
            OrchestratorState::Verified { .. },
            Event::DecodeFinished { result: Err(e) },
        ) => (OrchestratorState::Failed { error: PipelineError::DecodeFailure(e) }),
        (s, _) => s,
    }
}

/// Advance the lifecycle by one event.
pub fn step(state: OrchestratorState, event: Event) -> (next: OrchestratorState)
    ensures
        next == next_state(state, event),
{
    match (state, event) {
        (OrchestratorState::Idle, Event::Supply { input }) => OrchestratorState::Prepared { input },
        (OrchestratorState::Prepared { input }, Event::SetupDone { pk, vk }) => {
            OrchestratorState::KeysReady { input, pk, vk }
        },
        (OrchestratorState::Prepared { .. }, Event::SetupFailed) => {
            OrchestratorState::Failed { error: PipelineError::SetupFailure }
        },
        (OrchestratorState::KeysReady { vk, .. }, Event::ProveDone { artifact }) => {
            OrchestratorState::Proved { vk, artifact }
        },
        (OrchestratorState::KeysReady { .. }, Event::ProveFailed) => {
            OrchestratorState::Failed { error: PipelineError::ProvingFailure }
        },
        (OrchestratorState::KeysReady { input, pk, vk }, Event::ProveCancelled) => {
            OrchestratorState::KeysReady { input, pk, vk }
        },
        (OrchestratorState::Proved { artifact, .. }, Event::VerifyFinished { result: Ok(()) }) => {
            OrchestratorState::Verified { artifact }
        },
        (OrchestratorState::Proved { .. }, Event::VerifyFinished { result: Err(e) }) => {
            OrchestratorState::Failed { error: PipelineError::VerificationFailure(e) }
        },
        (OrchestratorState::Verified { .. }, Event::DecodeFinished { result: Ok(output) }) => {
            OrchestratorState::Reported { output }
        },
        (OrchestratorState::Verified { .. }, Event::DecodeFinished { result: Err(e) }) => {
            OrchestratorState::Failed { error: PipelineError::DecodeFailure(e) }
        },
        (s, _) => s,
    }
}

/// Fail closed: the only way into `Reported` is a successful decode out of
/// `Verified`; in particular no failure event ever leads to a report.
pub proof fn lemma_fail_closed(state: OrchestratorState, event: Event)
    requires
        !(state is Reported),
    ensures
        next_state(state, event) is Reported ==> state is Verified && event matches
            Event::DecodeFinished { result: Ok(_) },
{
}

/// A verification failure is fatal: from `Proved` it reaches `Failed` with
/// the verification error, never `Verified` or `Reported`.
pub proof fn lemma_verify_failure_fatal(
    vk: VerifyingKey,
    artifact: ProofArtifact,
    e: VerifyError,
)
    ensures
        next_state(
            OrchestratorState::Proved { vk, artifact },
            Event::VerifyFinished { result: Err(e) },
        ) == (OrchestratorState::Failed { error: PipelineError::VerificationFailure(e) }),
{
}

/// A cancelled proving attempt returns to `KeysReady` with the same input
/// and keys: nothing of the run is corrupted or kept.
pub proof fn lemma_cancel_restores_keys_ready(input: MoveInput, pk: ProvingKey, vk: VerifyingKey)
    ensures
        next_state(
            OrchestratorState::KeysReady { input, pk, vk },
            Event::ProveCancelled,
        ) == (OrchestratorState::KeysReady { input, pk, vk }),
{
}

/// Check the input schema before any key is derived: both squares on the
/// board, distinct, and a positive move number.
pub fn check_move_input(input: &MoveInput) -> (r: Result<(), PipelineError>)
    ensures
        r is Ok <==> move_allowed(input.from, input.to, input.move_number),
        r is Err ==> r == Err::<(), PipelineError>(PipelineError::InvalidInput),
{
    if input.from < 64 && input.to < 64 && input.from != input.to && input.move_number >= 1 {
        Ok(())
    } else {
        Err(PipelineError::InvalidInput)
    }
}

/// Run the whole lifecycle against the in-memory backend: schema check,
/// setup, prove, verify, decode.
///
/// On a schema-valid input the run always succeeds and returns the verified
/// artifact together with exactly the record the validator commits; a
/// schema violation is reported as `InvalidInput` before setup.
pub fn run_pipeline(guest: &Vec<u8>, input: &MoveInput) -> (r: Result<
    (ProofArtifact, MoveOutput),
    PipelineError,
>)
    ensures
        match r {
            Ok((artifact, output)) => move_allowed(input.from, input.to, input.move_number)
                && artifact.bytes@ == artifact_bytes(guest_id_of(guest@), *input) && output
                == validated(*input),
            Err(e) => e == PipelineError::InvalidInput && !move_allowed(
                input.from,
                input.to,
                input.move_number,
            ),
        },
{
    check_move_input(input)?;
    let (pk, vk) = setup(guest);
    let artifact = prove(&pk, input);
    proof {
        lemma_fresh_artifact_verifies(pk.guest_id, *input);
    }
    match verify(&artifact, &vk) {
        Ok(()) => {},
        Err(e) => {
            return Err(PipelineError::VerificationFailure(e));
        },
    }
    proof {
        lemma_prove_decode_round_trip(pk.guest_id, *input);
    }
    match decode(&artifact) {
        Ok(output) => Ok((artifact, output)),
        Err(e) => Err(PipelineError::DecodeFailure(e)),
    }
}

/// Assemble the caller-facing report for a verified artifact and its decoded
/// record, with the measured timings.
pub fn make_report(
    artifact: &ProofArtifact,
    output: &MoveOutput,
    proof_time_ms: u64,
    verify_time_ms: u64,
) -> (report: Report)
    requires
        artifact.bytes@.len() <= u64::MAX,
    ensures
        report.proof_size_bytes == artifact.bytes@.len(),
        report.proof_time_ms == proof_time_ms,
        report.verified,
        report.verify_time_ms == verify_time_ms,
        report.output == *output,
{
    Report {
        proof_size_bytes: artifact.bytes.len() as u64,
        proof_time_ms,
        verified: true,
        verify_time_ms,
        output: *output,
    }
}

} // verus!
