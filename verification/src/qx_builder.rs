use vstd::prelude::*;

use crate::account::is_valid_account_id;
use crate::json::{json_bytes, json_to_vec, null_args, null_json_bytes};
use crate::tx_dispatch::ConfirmationLevel;

verus! {

/// A read-only contract call, ready for the transport: target account,
/// method, JSON-encoded arguments, and the finality to query at.
#[derive(Debug, Clone, PartialEq, Eq)]
pub struct QueryRequest {
    pub account_id: String,
    pub method_name: String,
    pub args: Vec<u8>,
    pub finality: ConfirmationLevel,
}

/// Mathematical image of a query request.
#[verifier::ext_equal]
pub struct QueryImage {
    pub account_id: Seq<char>,
    pub method_name: Seq<char>,
    pub args: Seq<u8>,
    pub finality: ConfirmationLevel,
}

impl View for QueryRequest {
    type V = QueryImage;

    open spec fn view(&self) -> QueryImage {
        QueryImage {
            account_id: self.account_id@,
            method_name: self.method_name@,
            args: self.args@,
            finality: self.finality,
        }
    }
}

/// Accumulates a read-only contract call against one target account.
#[derive(Debug)]
pub struct QueryBuilder {
    pub account_id: String,
    pub method_name: String,
    pub args: Vec<u8>,
    pub finality: ConfirmationLevel,
}

impl View for QueryBuilder {
    type V = QueryImage;

    open spec fn view(&self) -> QueryImage {
        QueryImage {
            account_id: self.account_id@,
            method_name: self.method_name@,
            args: self.args@,
            finality: self.finality,
        }
    }
}

impl QueryBuilder {
    /// A builder for queries against the given account, at final (finalized)
    /// blocks, with no method and the default `null` argument payload.
    pub fn new(account_id: String) -> (r: QueryBuilder)
        ensures
            r@.account_id == account_id@,
            r@.method_name == Seq::<char>::empty(),
            r@.args == null_json_bytes(),
            r@.finality is Finalized,
    {
        QueryBuilder {
            account_id,
            method_name: String::new(),
            args: null_args(),
            finality: ConfirmationLevel::Finalized,
        }
    }

    /// Sets the contract method to call; every other field keeps its value.
    pub fn with_method_name(&mut self, method_name: &str)
        ensures
            final (self)@ == (QueryImage { method_name: method_name@, ..old(self)@ }),
    {
        self.method_name = method_name.to_owned();
    }

    /// Stores the call arguments as their JSON encoding; every other field
    /// keeps its value.
    pub fn with_args(&mut self, args: serde_json::Value)
        ensures
            final (self)@ == (QueryImage { args: json_bytes(args), ..old(self)@ }),
    {
        self.args = json_to_vec(&args);
    }

    /// The request this builder describes, unchanged field for field. The
    /// target account must already satisfy the naming grammar: an invalid
    /// account is a construction-time error of the surrounding sender, never
    /// a request that reaches the wire.
    pub fn build(&self) -> (r: QueryRequest)
        requires
            is_valid_account_id(self.account_id@),
        ensures
            r@ == self@,
    {
        QueryRequest {
            account_id: self.account_id.clone(),
            method_name: self.method_name.clone(),
            args: self.args.clone(),
            finality: self.finality,
        }
    }
}

} // verus!
