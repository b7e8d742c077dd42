use vstd::prelude::*;

use crate::account::{account_id_is_valid, is_valid_account_id};
use crate::errors::{RequiredField, SendError};
use crate::json::{json_bytes, json_to_vec, null_args, null_json_bytes};
use crate::keys::{
    key_can_sign, key_of_text, parse_secret_key, public_key_of, public_part_of,
    secret_key_is_consistent, secret_key_text_ok,
};
use crate::nonce_resolver::{resolve_next_nonce, AccessKeyLookup};
use crate::tx_builder::{
    assembled, sign_built_transaction, signed_transaction_part, tx_content_hash, wire_tx_of,
    TxBuilder, UnsignedTransaction, DEFAULT_GAS,
};
use crate::tx_dispatch::ConfirmationLevel;

verus! {

/// The submission timeout a sender starts with, in milliseconds.
pub const DEFAULT_TIMEOUT_MS: u64 = 60_000;

/// Fluent configuration for a transaction sender. Every setter is infallible
/// and stores the raw value; all validation happens once, in `build`.
#[derive(Debug)]
pub struct NearTxSenderBuilder {
    pub rpc_url: String,
    pub account_id_sender: Option<String>,
    pub account_id_receiver: Option<String>,
    pub method_name: Option<String>,
    pub args: Option<Vec<u8>>,
    pub private_key: Option<String>,
    pub gas: u64,
    pub deposit: u128,
    pub timeout_ms: u64,
}

/// The first required field the configuration is missing, in the order
/// `build` checks them, if any.
pub open spec fn missing_tx_field(b: NearTxSenderBuilder) -> Option<RequiredField> {
    if b.account_id_sender is None {
        Some(RequiredField::AccountSender)
    } else if b.account_id_receiver is None {
        Some(RequiredField::AccountReceiver)
    } else if b.private_key is None {
        Some(RequiredField::PrivateKey)
    } else if b.method_name is None {
        Some(RequiredField::MethodName)
    } else {
        None
    }
}

/// Why the configuration cannot build a sender, if anything: a missing
/// required field first, then a malformed account id, then a key string not
/// in the network's encoded form or naming a key that cannot sign. `None`
/// means `build` succeeds.
pub open spec fn tx_config_error(b: NearTxSenderBuilder) -> Option<SendError> {
    match missing_tx_field(b) {
        Some(f) => Some(SendError::MissingConfiguration(f)),
        None => if !is_valid_account_id(b.account_id_sender->0@) {
            Some(SendError::MalformedAccountId(RequiredField::AccountSender))
        } else if !is_valid_account_id(b.account_id_receiver->0@) {
            Some(SendError::MalformedAccountId(RequiredField::AccountReceiver))
        } else if !secret_key_text_ok(b.private_key->0@) || !key_can_sign(
            key_of_text(b.private_key->0@),
        ) {
            Some(SendError::InvalidKeyFormat)
        } else {
            None
        },
    }
}

/// A ready transaction sender: the signer identity and key, the call data,
/// and the dispatch parameters. Nonce and block hash are deliberately absent:
/// they are fetched fresh for every submission.
#[derive(Debug)]
pub struct NearTxSender {
    pub rpc_url: String,
    pub signer_id: String,
    pub public_key: near_crypto::PublicKey,
    pub secret_key: near_crypto::SecretKey,
    pub tx_builder: TxBuilder,
    pub timeout_ms: u64,
    pub wait_until: ConfirmationLevel,
}

impl NearTxSender {
    /// The sender's identity is consistent: both accounts satisfy the naming
    /// grammar, the held public key is the public half of the held secret
    /// key, that key can sign, and the call data fits the wire. `build`
    /// establishes this and nothing unsets it.
    pub open spec fn wf(self) -> bool {
        &&& is_valid_account_id(self.signer_id@)
        &&& self.tx_builder@.signer_id == self.signer_id@
        &&& self.tx_builder@.public_key == self.public_key
        &&& is_valid_account_id(self.tx_builder@.receiver_id)
        &&& self.public_key == public_part_of(self.secret_key)
        &&& key_can_sign(self.secret_key)
        &&& self.tx_builder@.method_name.len() < 0x40000000
        &&& self.tx_builder@.args.len() < 0x100000000
    }
}

impl NearTxSenderBuilder {
    /// A configuration pointed at the given RPC endpoint, with nothing else
    /// set, the network-safe default gas ceiling, no deposit, and the default
    /// submission timeout.
    pub fn new(rpc_url: &str) -> (r: NearTxSenderBuilder)
        ensures
            r.rpc_url@ == rpc_url@,
            r.account_id_sender is None,
            r.account_id_receiver is None,
            r.method_name is None,
            r.args is None,
            r.private_key is None,
            r.gas == DEFAULT_GAS,
            r.deposit == 0,
            r.timeout_ms == DEFAULT_TIMEOUT_MS,
    {
        NearTxSenderBuilder {
            rpc_url: rpc_url.to_owned(),
            account_id_sender: None,
            account_id_receiver: None,
            method_name: None,
            args: None,
            private_key: None,
            gas: DEFAULT_GAS,
            deposit: 0,
            timeout_ms: DEFAULT_TIMEOUT_MS,
        }
    }

    /// Sets the sending account; every other field keeps its value.
    pub fn account_sender(self, account_id: &str) -> (r: NearTxSenderBuilder)
        ensures
            r.account_id_sender matches Some(s) && s@ == account_id@,
            r.rpc_url == self.rpc_url,
            r.account_id_receiver == self.account_id_receiver,
            r.method_name == self.method_name,
            r.args == self.args,
            r.private_key == self.private_key,
            r.gas == self.gas,
            r.deposit == self.deposit,
            r.timeout_ms == self.timeout_ms,
    {
        NearTxSenderBuilder { account_id_sender: Some(account_id.to_owned()), ..self }
    }

    /// Sets the receiving account; every other field keeps its value.
    pub fn account_receiver(self, account_id: &str) -> (r: NearTxSenderBuilder)
        ensures
            r.account_id_receiver matches Some(s) && s@ == account_id@,
            r.rpc_url == self.rpc_url,
            r.account_id_sender == self.account_id_sender,
            r.method_name == self.method_name,
            r.args == self.args,
            r.private_key == self.private_key,
            r.gas == self.gas,
            r.deposit == self.deposit,
            r.timeout_ms == self.timeout_ms,
    {
        NearTxSenderBuilder { account_id_receiver: Some(account_id.to_owned()), ..self }
    }

    /// Stores the private key string; every other field keeps its value.
    pub fn use_private_key(self, private_key: &str) -> (r: NearTxSenderBuilder)
        ensures
            r.private_key matches Some(s) && s@ == private_key@,
            r.rpc_url == self.rpc_url,
            r.account_id_sender == self.account_id_sender,
            r.account_id_receiver == self.account_id_receiver,
            r.method_name == self.method_name,
            r.args == self.args,
            r.gas == self.gas,
            r.deposit == self.deposit,
            r.timeout_ms == self.timeout_ms,
    {
        NearTxSenderBuilder { private_key: Some(private_key.to_owned()), ..self }
    }

    /// Sets the contract method to call; every other field keeps its value.
    pub fn method_name(self, method_name: &str) -> (r: NearTxSenderBuilder)
        ensures
            r.method_name matches Some(s) && s@ == method_name@,
            r.rpc_url == self.rpc_url,
            r.account_id_sender == self.account_id_sender,
            r.account_id_receiver == self.account_id_receiver,
            r.args == self.args,
            r.private_key == self.private_key,
            r.gas == self.gas,
            r.deposit == self.deposit,
            r.timeout_ms == self.timeout_ms,
    {
        NearTxSenderBuilder { method_name: Some(method_name.to_owned()), ..self }
    }

    /// Stores the call arguments as their JSON encoding; every other field
    /// keeps its value.
    pub fn args(self, args: serde_json::Value) -> (r: NearTxSenderBuilder)
        ensures
            r.args matches Some(a) && a@ == json_bytes(args),
            r.rpc_url == self.rpc_url,
            r.account_id_sender == self.account_id_sender,
            r.account_id_receiver == self.account_id_receiver,
            r.method_name == self.method_name,
            r.private_key == self.private_key,
            r.gas == self.gas,
            r.deposit == self.deposit,
            r.timeout_ms == self.timeout_ms,
    {
        NearTxSenderBuilder { args: Some(json_to_vec(&args)), ..self }
    }

    /// Sets the gas limit; every other field keeps its value.
    pub fn gas(self, gas: u64) -> (r: NearTxSenderBuilder)
        ensures
            r.gas == gas,
            r.rpc_url == self.rpc_url,
            r.account_id_sender == self.account_id_sender,
            r.account_id_receiver == self.account_id_receiver,
            r.method_name == self.method_name,
            r.args == self.args,
            r.private_key == self.private_key,
            r.deposit == self.deposit,
            r.timeout_ms == self.timeout_ms,
    {
        NearTxSenderBuilder { gas, ..self }
    }

    /// Sets the attached deposit; every other field keeps its value.
    pub fn deposit(self, deposit: u128) -> (r: NearTxSenderBuilder)
        ensures
            r.deposit == deposit,
            r.rpc_url == self.rpc_url,
            r.account_id_sender == self.account_id_sender,
            r.account_id_receiver == self.account_id_receiver,
            r.method_name == self.method_name,
            r.args == self.args,
            r.private_key == self.private_key,
            r.gas == self.gas,
            r.timeout_ms == self.timeout_ms,
    {
        NearTxSenderBuilder { deposit, ..self }
    }

    /// Sets the submission timeout in milliseconds; every other field keeps
    /// its value.
    pub fn timeout(self, timeout_ms: u64) -> (r: NearTxSenderBuilder)
        ensures
            r.timeout_ms == timeout_ms,
            r.rpc_url == self.rpc_url,
            r.account_id_sender == self.account_id_sender,
            r.account_id_receiver == self.account_id_receiver,
            r.method_name == self.method_name,
            r.args == self.args,
            r.private_key == self.private_key,
            r.gas == self.gas,
            r.deposit == self.deposit,
    {
        NearTxSenderBuilder { timeout_ms, ..self }
    }

    /// Validates the whole configuration, once, and hands back a ready
    /// sender. Succeeds exactly when every required field was set, both
    /// account ids satisfy the naming grammar, and the key string is in the
    /// network's encoded form and names a key that can sign; otherwise the
    /// error names what is wrong, and no network call is made — `build` is a
    /// pure function of the configuration. The two length bounds are machine
    /// limits: the wire encoding prefixes the method name and the argument
    /// bytes with a 32-bit length.
    pub fn build(self) -> (r: Result<NearTxSender, SendError>)
        requires
            self.method_name matches Some(m) ==> m@.len() < 0x40000000,
            self.args matches Some(a) ==> a@.len() < 0x100000000,
        ensures
            r is Ok <==> tx_config_error(self) is None,
            r matches Err(e) ==> Some(e) == tx_config_error(self),
            r matches Ok(s) ==> {
                &&& s.wf()
                &&& s.rpc_url == self.rpc_url
                &&& s.secret_key == key_of_text(self.private_key->0@)
                &&& s.public_key == public_part_of(s.secret_key)
                &&& s.signer_id@ == self.account_id_sender->0@
                &&& s.tx_builder@.receiver_id == self.account_id_receiver->0@
                &&& s.tx_builder@.method_name == self.method_name->0@
                &&& s.tx_builder@.args == (if self.args is Some {
                    self.args->0@
                } else {
                    null_json_bytes()
                })
                &&& s.tx_builder@.gas == self.gas
                &&& s.tx_builder@.deposit == self.deposit
                &&& s.timeout_ms == self.timeout_ms
                &&& s.wait_until is Finalized
            },
    {
        let sender = match self.account_id_sender {
            Some(s) => s,
            None => {
                return Err(SendError::MissingConfiguration(RequiredField::AccountSender));
            },
        };
        let receiver = match self.account_id_receiver {
            Some(s) => s,
            None => {
                return Err(SendError::MissingConfiguration(RequiredField::AccountReceiver));
            },
        };
        let key_text = match self.private_key {
            Some(s) => s,
            None => {
                return Err(SendError::MissingConfiguration(RequiredField::PrivateKey));
            },
        };
        let method = match self.method_name {
            Some(s) => s,
            None => {
                return Err(SendError::MissingConfiguration(RequiredField::MethodName));
            },
        };
        if !account_id_is_valid(sender.as_str()) {
            return Err(SendError::MalformedAccountId(RequiredField::AccountSender));
        }
        if !account_id_is_valid(receiver.as_str()) {
            return Err(SendError::MalformedAccountId(RequiredField::AccountReceiver));
        }
        let secret_key = match parse_secret_key(key_text.as_str()) {
            Some(k) => k,
            None => {
                return Err(SendError::InvalidKeyFormat);
            },
        };
        if !secret_key_is_consistent(&secret_key) {
            return Err(SendError::InvalidKeyFormat);
        }
        let public_key = public_key_of(&secret_key);
        let tx_builder = TxBuilder {
            signer_id: sender.clone(),
            public_key: public_key.clone(),
            method_name: method,
            args: match self.args {
                Some(a) => a,
                None => null_args(),
            },
            gas: self.gas,
            deposit: self.deposit,
            receiver_id: receiver,
        };
        Ok(
            NearTxSender {
                rpc_url: self.rpc_url,
                signer_id: sender,
                public_key,
                secret_key,
                tx_builder,
                timeout_ms: self.timeout_ms,
                wait_until: ConfirmationLevel::Finalized,
            },
        )
    }
}

/// Everything one submission attempt needs after the nonce round-trip: the
/// signed transaction to broadcast, its unsigned image, its content hash —
/// the handle a status-by-hash query takes after an ambiguous outcome — and
/// the dispatch parameters.
#[derive(Debug)]
pub struct PreparedTransaction {
    pub signed: near_primitives::transaction::SignedTransaction,
    pub transaction: UnsignedTransaction,
    pub content_hash: Vec<u8>,
    pub wait_until: ConfirmationLevel,
    pub timeout_ms: u64,
}

impl NearTxSender {
    /// A fresh configuration pointed at the given RPC endpoint.
    pub fn builder(rpc_url: &str) -> (r: NearTxSenderBuilder)
        ensures
            r.rpc_url@ == rpc_url@,
            r.account_id_sender is None,
            r.account_id_receiver is None,
            r.method_name is None,
            r.args is None,
            r.private_key is None,
            r.gas == DEFAULT_GAS,
            r.deposit == 0,
            r.timeout_ms == DEFAULT_TIMEOUT_MS,
    {
        NearTxSenderBuilder::new(rpc_url)
    }

    /// Assembles and signs the transaction for one submission attempt, from
    /// what the access-key lookup produced. A found key with stored nonce N
    /// yields a transaction carrying nonce N + 1 and the fresh block hash,
    /// and the signed unit carries exactly that transaction's wire form; a
    /// missing key and an unreachable network surface as the distinct
    /// failures the lookup saw, and nothing is signed.
    pub fn prepare_transaction(&self, lookup: AccessKeyLookup) -> (r: Result<
        PreparedTransaction,
        SendError,
    >)
        requires
            self.wf(),
            lookup.wf(),
        ensures
            (lookup matches AccessKeyLookup::Found { nonce, block_hash } ==> r matches Ok(p) && {
                &&& p.transaction@ == assembled(
                    self.tx_builder@,
                    (nonce + 1) as u64,
                    block_hash@,
                )
                &&& p.transaction.wf()
                &&& p.content_hash@ == tx_content_hash(p.transaction@)
                &&& signed_transaction_part(p.signed) == wire_tx_of(p.transaction@)
                &&& p.wait_until == self.wait_until
                &&& p.timeout_ms == self.timeout_ms
            }),
            lookup is KeyMissing ==> (r matches Err(e) && e == SendError::AccessKeyNotFound),
            lookup is Unreachable ==> (r matches Err(e) && e == SendError::TransportError),
    {
        let (nonce, block_hash) = match resolve_next_nonce(lookup) {
            Ok(p) => p,
            Err(e) => {
                return Err(e);
            },
        };
        let (transaction, content_hash) = self.tx_builder.build(nonce, block_hash);
        let signed = sign_built_transaction(&transaction, &self.secret_key);
        Ok(
            PreparedTransaction {
                signed,
                transaction,
                content_hash,
                wait_until: self.wait_until,
                timeout_ms: self.timeout_ms,
            },
        )
    }
}

/// A configuration whose receiver was never set fails at build time with an
/// error naming exactly that field, whatever else is configured (once the
/// sender, checked first, is present). `build` is a pure function of the
/// configuration, so the failure is purely local: nothing reaches a network.
pub proof fn lemma_missing_receiver_is_local(b: NearTxSenderBuilder)
    requires
        b.account_id_sender is Some,
        b.account_id_receiver is None,
    ensures
        tx_config_error(b) == Some(
            SendError::MissingConfiguration(RequiredField::AccountReceiver),
        ),
{
}

} // verus!
