use vstd::prelude::*;

use crate::errors::SendError;

verus! {

/// What a view-access-key lookup at the latest finalized block produced,
/// as plain values. The transport hands one of these back for every attempt.
#[derive(Debug, Clone, PartialEq, Eq)]
pub enum AccessKeyLookup {
    /// The access key exists on chain: its stored nonce, and the hash of the
    /// latest finalized block.
    Found { nonce: u64, block_hash: Vec<u8> },
    /// The network answered, but no access key binds this public key to the
    /// account: a semantic absence, not a transport problem.
    KeyMissing,
    /// The network could not be reached, or failed before answering.
    Unreachable,
}

impl AccessKeyLookup {
    /// A found key carries a nonce the counter can still move past, and a
    /// block hash of the 32 bytes a real hash has.
    pub open spec fn wf(self) -> bool {
        self matches AccessKeyLookup::Found { nonce, block_hash } ==> (nonce < u64::MAX
            && block_hash@.len() == 32)
    }
}

/// The nonce-resolution rule: an access key whose stored nonce is N yields
/// next nonce N + 1 — never N itself, which the network rejects as a replay —
/// together with the latest block hash. A missing key and an unreachable
/// network stay distinct failures, so a caller can tell whether a retry can
/// help.
pub fn resolve_next_nonce(lookup: AccessKeyLookup) -> (r: Result<(u64, Vec<u8>), SendError>)
    requires
        lookup.wf(),
    ensures
        (lookup matches AccessKeyLookup::Found { nonce, block_hash } ==> r matches Ok(p)
            && p.0 == nonce + 1 && p.1@ == block_hash@),
        lookup is KeyMissing ==> r == Err::<(u64, Vec<u8>), SendError>(
            SendError::AccessKeyNotFound,
        ),
        lookup is Unreachable ==> r == Err::<(u64, Vec<u8>), SendError>(SendError::TransportError),
{
    match lookup {
        AccessKeyLookup::Found { nonce, block_hash } => Ok((nonce + 1, block_hash)),
        AccessKeyLookup::KeyMissing => Err(SendError::AccessKeyNotFound),
        AccessKeyLookup::Unreachable => Err(SendError::TransportError),
    }
}

} // verus!
