use vstd::prelude::*;

use crate::errors::SendError;

verus! {

/// What one query round-trip produced, as the transport observed it.
#[derive(Debug, Clone, PartialEq, Eq)]
pub enum QueryResponseEvent {
    /// The response was a call-result envelope holding this payload.
    CallResult(Vec<u8>),
    /// The response arrived but was not a call-result envelope (for example,
    /// the account does not exist or is not a contract).
    OtherKind,
    /// The network could not be reached, or failed before answering. Queries
    /// are stateless and idempotent, so such a failure is freely retriable.
    TransportFailure,
}

/// The query dispatcher's extraction rule: a call-result envelope yields its
/// payload bytes untouched; any response of another shape is the
/// unexpected-response-shape error, never a panic and never garbage bytes.
pub open spec fn extracted(event: QueryResponseEvent) -> Result<Vec<u8>, SendError> {
    match event {
        QueryResponseEvent::CallResult(payload) => Ok(payload),
        QueryResponseEvent::OtherKind => Err(SendError::UnexpectedResponseShape),
        QueryResponseEvent::TransportFailure => Err(SendError::TransportError),
    }
}

/// Extracts the call-result payload from a query response, exactly as
/// `extracted` says.
pub fn extract_call_result(event: QueryResponseEvent) -> (r: Result<Vec<u8>, SendError>)
    ensures
        r == extracted(event),
{
    match event {
        QueryResponseEvent::CallResult(payload) => Ok(payload),
        QueryResponseEvent::OtherKind => Err(SendError::UnexpectedResponseShape),
        QueryResponseEvent::TransportFailure => Err(SendError::TransportError),
    }
}

} // verus!
