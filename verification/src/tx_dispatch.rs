use vstd::prelude::*;

use crate::errors::{RejectionReason, SendError};

verus! {

/// How strong a confirmation the dispatcher waits for before reporting a
/// submission as done: accepted by a validator, executed but not yet
/// finalized, or finalized (irreversible).
#[derive(Clone, Copy, Debug, PartialEq, Eq, Structural)]
pub enum ConfirmationLevel {
    Accepted,
    Executed,
    Finalized,
}

impl Default for ConfirmationLevel {
    /// The default confirmation is finalized, the correctness-safe choice.
    fn default() -> (r: Self)
        ensures
            r is Finalized,
    {
        ConfirmationLevel::Finalized
    }
}

/// What the network reported for a transaction it confirmed: the success
/// payload, or the structured on-chain reason it was rejected.
#[derive(Debug, Clone, PartialEq, Eq)]
pub enum ExecutionStatus {
    Success(Vec<u8>),
    Rejected(RejectionReason),
}

/// How one submission attempt ended, as the transport observed it.
#[derive(Debug, Clone, PartialEq, Eq)]
pub enum SubmitOutcome {
    /// The requested confirmation level was observed; the network reported
    /// this execution status.
    Confirmed(ExecutionStatus),
    /// The transport failed before the transaction was broadcast: nothing
    /// reached the network, so a retry with a fresh nonce and block hash is
    /// safe.
    TransportFailureBeforeBroadcast,
    /// The transaction was broadcast, but no confirmation arrived within the
    /// submission timeout: it may or may not have been applied.
    TimedOutAfterBroadcast,
}

/// Outcome of a confirmed transaction: the success payload, or a structured
/// on-chain failure — a terminal result, distinct from every transport-level
/// failure.
#[derive(Debug, Clone, PartialEq, Eq)]
pub enum ExecutionResult {
    Success(Vec<u8>),
    Failure(RejectionReason),
}

/// The dispatcher's classification rule. An on-chain rejection is a terminal
/// execution result, never a transport error; a transport failure before
/// broadcast is a retriable transport error, never anything that looks like
/// an on-chain verdict; a timeout after broadcast is always the ambiguous
/// outcome, never a silent success or a silent failure.
pub open spec fn classified(outcome: SubmitOutcome) -> Result<ExecutionResult, SendError> {
    match outcome {
        SubmitOutcome::Confirmed(ExecutionStatus::Success(payload)) => Ok(
            ExecutionResult::Success(payload),
        ),
        SubmitOutcome::Confirmed(ExecutionStatus::Rejected(reason)) => Ok(
            ExecutionResult::Failure(reason),
        ),
        SubmitOutcome::TransportFailureBeforeBroadcast => Err(SendError::TransportError),
        SubmitOutcome::TimedOutAfterBroadcast => Err(SendError::AmbiguousOutcome),
    }
}

/// Classifies how a submission attempt ended, exactly as `classified` says.
pub fn classify_submission(outcome: SubmitOutcome) -> (r: Result<ExecutionResult, SendError>)
    ensures
        r == classified(outcome),
{
    match outcome {
        SubmitOutcome::Confirmed(ExecutionStatus::Success(payload)) => Ok(
            ExecutionResult::Success(payload),
        ),
        SubmitOutcome::Confirmed(ExecutionStatus::Rejected(reason)) => Ok(
            ExecutionResult::Failure(reason),
        ),
        SubmitOutcome::TransportFailureBeforeBroadcast => Err(SendError::TransportError),
        SubmitOutcome::TimedOutAfterBroadcast => Err(SendError::AmbiguousOutcome),
    }
}

/// Failure taxonomy of the dispatcher: a transport failure before broadcast
/// is reported as a transport error and nothing else, and a timeout after
/// broadcast is reported as the ambiguous outcome and nothing else — in
/// particular, neither is ever reported as an execution result.
pub proof fn lemma_dispatch_failure_taxonomy()
    ensures
        classified(SubmitOutcome::TransportFailureBeforeBroadcast) == Err::<
            ExecutionResult,
            SendError,
        >(SendError::TransportError),
        classified(SubmitOutcome::TimedOutAfterBroadcast) == Err::<ExecutionResult, SendError>(
            SendError::AmbiguousOutcome,
        ),
{
}

} // verus!
