use vstd::prelude::*;

use crate::account::{account_id_is_valid, is_valid_account_id};
use crate::errors::{RequiredField, SendError};
use crate::json::{json_bytes, json_to_vec, null_args, null_json_bytes};
use crate::qx_builder::{QueryBuilder, QueryRequest};
use crate::tx_dispatch::ConfirmationLevel;

verus! {

/// Fluent configuration for a query sender. Every setter is infallible and
/// stores the raw value; all validation happens once, in `build`.
#[derive(Debug)]
pub struct NearQxSenderBuilder {
    pub rpc_url: String,
    pub account_id_sender: Option<String>,
    pub account_id_receiver: Option<String>,
    pub method_name: Option<String>,
    pub args: Option<Vec<u8>>,
}

/// The first required field the configuration is missing, in the order
/// `build` checks them, if any. A query needs no signer and no key: only the
/// target account and the method are required.
pub open spec fn missing_qx_field(b: NearQxSenderBuilder) -> Option<RequiredField> {
    if b.account_id_receiver is None {
        Some(RequiredField::AccountReceiver)
    } else if b.method_name is None {
        Some(RequiredField::MethodName)
    } else {
        None
    }
}

/// Why the configuration cannot build a query sender, if anything: a missing
/// required field first, then a malformed target account. `None` means
/// `build` succeeds.
pub open spec fn qx_config_error(b: NearQxSenderBuilder) -> Option<SendError> {
    match missing_qx_field(b) {
        Some(f) => Some(SendError::MissingConfiguration(f)),
        None => if !is_valid_account_id(b.account_id_receiver->0@) {
            Some(SendError::MalformedAccountId(RequiredField::AccountReceiver))
        } else {
            None
        },
    }
}

/// A ready query sender: the endpoint and the read-only call it issues.
#[derive(Debug)]
pub struct NearQxSender {
    pub rpc_url: String,
    pub query_builder: QueryBuilder,
}

impl NearQxSender {
    /// The target account satisfies the naming grammar; `build` establishes
    /// this and nothing unsets it.
    pub open spec fn wf(self) -> bool {
        is_valid_account_id(self.query_builder@.account_id)
    }
}

impl NearQxSenderBuilder {
    /// A configuration pointed at the given RPC endpoint, with nothing set.
    pub fn new(rpc_url: &str) -> (r: NearQxSenderBuilder)
        ensures
            r.rpc_url@ == rpc_url@,
            r.account_id_sender is None,
            r.account_id_receiver is None,
            r.method_name is None,
            r.args is None,
    {
        NearQxSenderBuilder {
            rpc_url: rpc_url.to_owned(),
            account_id_sender: None,
            account_id_receiver: None,
            method_name: None,
            args: None,
        }
    }

    /// Stores the sending account. A read-only call has no sender on chain,
    /// so the value is kept but takes no part in the request.
    pub fn account_sender(self, account_id: &str) -> (r: NearQxSenderBuilder)
        ensures
            r.account_id_sender matches Some(s) && s@ == account_id@,
            r.rpc_url == self.rpc_url,
            r.account_id_receiver == self.account_id_receiver,
            r.method_name == self.method_name,
            r.args == self.args,
    {
        NearQxSenderBuilder { account_id_sender: Some(account_id.to_owned()), ..self }
    }

    /// Sets the account whose contract the query targets; every other field
    /// keeps its value.
    pub fn account_receiver(self, account_id: &str) -> (r: NearQxSenderBuilder)
        ensures
            r.account_id_receiver matches Some(s) && s@ == account_id@,
            r.rpc_url == self.rpc_url,
            r.account_id_sender == self.account_id_sender,
            r.method_name == self.method_name,
            r.args == self.args,
    {
        NearQxSenderBuilder { account_id_receiver: Some(account_id.to_owned()), ..self }
    }

    /// Sets the contract method to call; every other field keeps its value.
    pub fn method_name(self, method_name: &str) -> (r: NearQxSenderBuilder)
        ensures
            r.method_name matches Some(s) && s@ == method_name@,
            r.rpc_url == self.rpc_url,
            r.account_id_sender == self.account_id_sender,
            r.account_id_receiver == self.account_id_receiver,
            r.args == self.args,
    {
        NearQxSenderBuilder { method_name: Some(method_name.to_owned()), ..self }
    }

    /// Stores the call arguments as their JSON encoding; every other field
    /// keeps its value.
    pub fn args(self, args: serde_json::Value) -> (r: NearQxSenderBuilder)
        ensures
            r.args matches Some(a) && a@ == json_bytes(args),
            r.rpc_url == self.rpc_url,
            r.account_id_sender == self.account_id_sender,
            r.account_id_receiver == self.account_id_receiver,
            r.method_name == self.method_name,
    {
        NearQxSenderBuilder { args: Some(json_to_vec(&args)), ..self }
    }

    /// Validates the whole configuration, once, and hands back a ready query
    /// sender. Succeeds exactly when the target account and the method were
    /// set and the account satisfies the naming grammar; otherwise the error
    /// names what is wrong, and no network call is made.
    pub fn build(self) -> (r: Result<NearQxSender, SendError>)
        ensures
            r is Ok <==> qx_config_error(self) is None,
            r matches Err(e) ==> Some(e) == qx_config_error(self),
            r matches Ok(s) ==> {
                &&& s.wf()
                &&& s.rpc_url == self.rpc_url
                &&& s.query_builder@.account_id == self.account_id_receiver->0@
                &&& s.query_builder@.method_name == self.method_name->0@
                &&& s.query_builder@.args == (if self.args is Some {
                    self.args->0@
                } else {
                    null_json_bytes()
                })
                &&& s.query_builder@.finality is Finalized
            },
    {
        let receiver = match self.account_id_receiver {
            Some(s) => s,
            None => {
                return Err(SendError::MissingConfiguration(RequiredField::AccountReceiver));
            },
        };
        let method = match self.method_name {
            Some(s) => s,
            None => {
                return Err(SendError::MissingConfiguration(RequiredField::MethodName));
            },
        };
        if !account_id_is_valid(receiver.as_str()) {
            return Err(SendError::MalformedAccountId(RequiredField::AccountReceiver));
        }
        let query_builder = QueryBuilder {
            account_id: receiver,
            method_name: method,
            args: match self.args {
                Some(a) => a,
                None => null_args(),
            },
            finality: ConfirmationLevel::Finalized,
        };
        Ok(NearQxSender { rpc_url: self.rpc_url, query_builder })
    }
}

/// A query configuration whose receiver was never set fails at build time
/// with an error naming exactly that field, whatever else is configured.
/// `build` is a pure function of the configuration, so the failure is purely
/// local: nothing reaches a network.
pub proof fn lemma_missing_receiver_is_local(b: NearQxSenderBuilder)
    requires
        b.account_id_receiver is None,
    ensures
        qx_config_error(b) == Some(
            SendError::MissingConfiguration(RequiredField::AccountReceiver),
        ),
{
}

impl NearQxSender {
    /// A fresh configuration pointed at the given RPC endpoint.
    pub fn builder(rpc_url: &str) -> (r: NearQxSenderBuilder)
        ensures
            r.rpc_url@ == rpc_url@,
            r.account_id_sender is None,
            r.account_id_receiver is None,
            r.method_name is None,
            r.args is None,
    {
        NearQxSenderBuilder::new(rpc_url)
    }

    /// The request one query round-trip submits: the configured call,
    /// unchanged field for field.
    pub fn query_request(&self) -> (r: QueryRequest)
        requires
            self.wf(),
        ensures
            r@ == self.query_builder@,
    {
        self.query_builder.build()
    }
}

} // verus!
