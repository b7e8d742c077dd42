use vstd::prelude::*;

verus! {

/// A builder field that a sender cannot be built without.
#[derive(Clone, Copy, Debug, PartialEq, Eq, Structural)]
pub enum RequiredField {
    AccountSender,
    AccountReceiver,
    MethodName,
    PrivateKey,
}

/// The name of a required field as the builder surface spells it.
pub open spec fn spec_field_label(f: RequiredField) -> Seq<char> {
    match f {
        RequiredField::AccountSender => "account_sender"@,
        RequiredField::AccountReceiver => "account_receiver"@,
        RequiredField::MethodName => "method_name"@,
        RequiredField::PrivateKey => "private_key"@,
    }
}

impl RequiredField {
    /// The field's name, for error messages that say which field is absent.
    pub fn label(&self) -> (r: String)
        ensures
            r@ == spec_field_label(*self),
    {
        match self {
            RequiredField::AccountSender => "account_sender".to_owned(),
            RequiredField::AccountReceiver => "account_receiver".to_owned(),
            RequiredField::MethodName => "method_name".to_owned(),
            RequiredField::PrivateKey => "private_key".to_owned(),
        }
    }
}

/// The structured reason the network gives for rejecting a transaction
/// on chain, distinct from any transport-level failure.
#[derive(Clone, Copy, Debug, PartialEq, Eq, Structural)]
pub enum RejectionReason {
    InvalidNonce,
    InsufficientBalance,
    InsufficientGas,
    ContractPanic,
}

/// Every failure a sender can surface, most specific kind first:
/// configuration problems are local and never look like network failures,
/// transport failures are safe to retry with fresh nonce data, and an
/// ambiguous outcome (timeout after broadcast) must never be retried blindly.
#[derive(Clone, Copy, Debug, PartialEq, Eq, Structural)]
pub enum SendError {
    /// A required builder field was never set.
    MissingConfiguration(RequiredField),
    /// An account id does not satisfy the network's account-naming grammar.
    MalformedAccountId(RequiredField),
    /// The private key string is not in the network's encoded key form.
    InvalidKeyFormat,
    /// The network could not be reached, or failed before the transaction
    /// was broadcast; safe to retry with a fresh nonce and block hash.
    TransportError,
    /// The queried (account, public key) pair has no access key on chain.
    AccessKeyNotFound,
    /// The submission was broadcast but no confirmation was observed within
    /// the timeout: the transaction may or may not have been applied, and the
    /// documented recovery is a status-by-hash query, never a blind resend.
    AmbiguousOutcome,
    /// An RPC response did not have the shape the request calls for.
    UnexpectedResponseShape,
}

} // verus!
