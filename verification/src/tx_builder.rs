use vstd::prelude::*;

use crate::account::is_valid_account_id;
use near_primitives::action::{Action, FunctionCallAction};
use near_primitives::hash::CryptoHash;
use near_primitives::transaction::{Transaction, TransactionV0};
use near_primitives::types::{AccountId, Balance, Gas};

verus! {

#[verifier::external_type_specification]
#[verifier::external_body]
pub struct ExTransaction(Transaction);

#[verifier::external_type_specification]
#[verifier::external_body]
pub struct ExSignedTransaction(near_primitives::transaction::SignedTransaction);

/// Relies on near_crypto::PublicKey's derived Clone, which copies the key
/// data and returns a value equal to the one cloned.
pub assume_specification[ <near_crypto::PublicKey as Clone>::clone ](
    k: &near_crypto::PublicKey,
) -> (r: near_crypto::PublicKey)
    ensures
        r == *k,
;

/// The one kind of action this library attaches to a transaction: a call of
/// a named contract method with arguments, gas, and deposit.
#[derive(Clone, Debug, PartialEq, Eq)]
pub struct CallAction {
    pub method_name: String,
    pub args: Vec<u8>,
    pub gas: u64,
    pub deposit: u128,
}

/// Mathematical image of a call action.
#[verifier::ext_equal]
pub struct CallActionImage {
    pub method_name: Seq<char>,
    pub args: Seq<u8>,
    pub gas: u64,
    pub deposit: u128,
}

impl View for CallAction {
    type V = CallActionImage;

    open spec fn view(&self) -> CallActionImage {
        CallActionImage {
            method_name: self.method_name@,
            args: self.args@,
            gas: self.gas,
            deposit: self.deposit,
        }
    }
}

/// A transaction before signing: sender, sender's public key, nonce,
/// receiver, the block hash anchoring it against replay, and its actions.
#[derive(Debug, PartialEq, Eq)]
pub struct UnsignedTransaction {
    pub signer_id: String,
    pub public_key: near_crypto::PublicKey,
    pub nonce: u64,
    pub receiver_id: String,
    pub block_hash: Vec<u8>,
    pub actions: Vec<CallAction>,
}

/// Mathematical image of an unsigned transaction.
#[verifier::ext_equal]
pub struct TxImage {
    pub signer_id: Seq<char>,
    pub public_key: near_crypto::PublicKey,
    pub nonce: u64,
    pub receiver_id: Seq<char>,
    pub block_hash: Seq<u8>,
    pub actions: Seq<CallActionImage>,
}

impl View for UnsignedTransaction {
    type V = TxImage;

    open spec fn view(&self) -> TxImage {
        TxImage {
            signer_id: self.signer_id@,
            public_key: self.public_key,
            nonce: self.nonce,
            receiver_id: self.receiver_id@,
            block_hash: self.block_hash@,
            actions: self.actions@.map_values(|a: CallAction| a@),
        }
    }
}

impl CallActionImage {
    /// The action fits the wire: its canonical encoding prefixes the method
    /// name and the argument bytes with a 32-bit length, and a character can
    /// take four bytes, so both counts must stay below these bounds for the
    /// encoding to exist.
    pub open spec fn wf(self) -> bool {
        &&& self.method_name.len() < 0x40000000
        &&& self.args.len() < 0x100000000
    }
}

impl TxImage {
    /// Both accounts satisfy the naming grammar, the block hash has the 32
    /// bytes of a real hash, and exactly one action, sized for the wire, is
    /// attached.
    pub open spec fn wf(self) -> bool {
        &&& is_valid_account_id(self.signer_id)
        &&& is_valid_account_id(self.receiver_id)
        &&& self.block_hash.len() == 32
        &&& self.actions.len() == 1
        &&& self.actions[0].wf()
    }
}

impl UnsignedTransaction {
    pub open spec fn wf(self) -> bool {
        self@.wf()
    }
}

/// The content hash of an unsigned transaction: the hash the network
/// addresses it by, and the bytes its signature covers. It is a function of
/// the transaction image alone.
pub uninterp spec fn tx_content_hash(t: TxImage) -> Seq<u8>;

/// The wire form of a transaction image, a function of the image alone.
pub uninterp spec fn wire_tx_of(t: TxImage) -> Transaction;

/// The transaction a signed unit carries: the signature covers exactly this.
pub uninterp spec fn signed_transaction_part(
    s: near_primitives::transaction::SignedTransaction,
) -> Transaction;

/// Relies on near_primitives. Builds the wire form of the transaction; the
/// account ids parse because a well-formed transaction carries valid ones,
/// and the block hash has exactly 32 bytes.
#[verifier::external_body]
pub(crate) fn to_near_transaction(t: &UnsignedTransaction) -> (r: Transaction)
    requires
        t.wf(),
    ensures
        r == wire_tx_of(t@),
{
    let a = &t.actions[0];
    let call = FunctionCallAction {
        method_name: a.method_name.clone(),
        args: a.args.clone(),
        gas: Gas::from_gas(a.gas),
        deposit: Balance::from_yoctonear(a.deposit),
    };
    Transaction::V0(TransactionV0 {
        signer_id: t.signer_id.parse::<AccountId>().unwrap(),
        public_key: t.public_key.clone(),
        nonce: t.nonce,
        receiver_id: t.receiver_id.parse::<AccountId>().unwrap(),
        block_hash: CryptoHash(t.block_hash.as_slice().try_into().unwrap()),
        actions: vec![Action::FunctionCall(Box::new(call))],
    })
}

/// Relies on near_primitives::transaction::Transaction::get_hash_and_size:
/// the sha-256 of the transaction's canonical (borsh) encoding, 32 bytes,
/// a function of the transaction image alone.
#[verifier::external_body]
pub(crate) fn hash_built_transaction(t: &UnsignedTransaction) -> (r: Vec<u8>)
    requires
        t.wf(),
    ensures
        r@ == tx_content_hash(t@),
        r@.len() == 32,
{
    let (hash, _) = to_near_transaction(t).get_hash_and_size();
    hash.as_ref().to_vec()
}

/// Relies on near_crypto::InMemorySigner and Signer::sign, and on
/// near_primitives::transaction::SignedTransaction::new, which stores the
/// transaction it is handed: signs the transaction's content hash with the
/// key, yielding the unit the network accepts for submission. Signing demands
/// a key that can sign: an ed25519 key whose stored public half does not
/// match its secret half is rejected inside the signer.
#[verifier::external_body]
pub(crate) fn sign_built_transaction(
    t: &UnsignedTransaction,
    key: &near_crypto::SecretKey,
) -> (r: near_primitives::transaction::SignedTransaction)
    requires
        t.wf(),
        crate::keys::key_can_sign(*key),
    ensures
        signed_transaction_part(r) == wire_tx_of(t@),
{
    let tx = to_near_transaction(t);
    let signer =
        near_crypto::InMemorySigner::from_secret_key(
            t.signer_id.parse::<AccountId>().unwrap(),
            key.clone(),
        );
    let (hash, _) = tx.get_hash_and_size();
    let signature = signer.sign(hash.as_ref());
    near_primitives::transaction::SignedTransaction::new(signature, tx)
}

/// Default gas ceiling for a function call, in gas units.
pub const DEFAULT_GAS: u64 = 100_000_000_000_000;

/// Accumulates everything an unsigned transaction needs besides the nonce
/// and block hash, which are fetched fresh for every submission.
#[derive(Debug)]
pub struct TxBuilder {
    pub signer_id: String,
    pub public_key: near_crypto::PublicKey,
    pub method_name: String,
    pub args: Vec<u8>,
    pub gas: u64,
    pub deposit: u128,
    pub receiver_id: String,
}

/// Mathematical image of a transaction builder.
#[verifier::ext_equal]
pub struct TxBuilderImage {
    pub signer_id: Seq<char>,
    pub public_key: near_crypto::PublicKey,
    pub method_name: Seq<char>,
    pub args: Seq<u8>,
    pub gas: u64,
    pub deposit: u128,
    pub receiver_id: Seq<char>,
}

impl View for TxBuilder {
    type V = TxBuilderImage;

    open spec fn view(&self) -> TxBuilderImage {
        TxBuilderImage {
            signer_id: self.signer_id@,
            public_key: self.public_key,
            method_name: self.method_name@,
            args: self.args@,
            gas: self.gas,
            deposit: self.deposit,
            receiver_id: self.receiver_id@,
        }
    }
}

/// The transaction a builder assembles for a given nonce and block hash:
/// the builder's identity and call data around exactly one function-call
/// action. Assembly is a pure function of these inputs.
pub open spec fn assembled(b: TxBuilderImage, nonce: u64, block_hash: Seq<u8>) -> TxImage {
    TxImage {
        signer_id: b.signer_id,
        public_key: b.public_key,
        nonce: nonce,
        receiver_id: b.receiver_id,
        block_hash: block_hash,
        actions: seq![
            CallActionImage {
                method_name: b.method_name,
                args: b.args,
                gas: b.gas,
                deposit: b.deposit,
            }
        ],
    }
}

impl TxBuilder {
    /// A builder for the given signer identity and receiver, with the
    /// network-safe default gas ceiling, no deposit, no method, and the
    /// default `null` argument payload.
    pub fn new(
        signer_id: String,
        public_key: near_crypto::PublicKey,
        receiver_id: String,
    ) -> (r: TxBuilder)
        ensures
            r@.signer_id == signer_id@,
            r@.public_key == public_key,
            r@.method_name == Seq::<char>::empty(),
            r@.args == crate::json::null_json_bytes(),
            r@.gas == DEFAULT_GAS,
            r@.deposit == 0,
            r@.receiver_id == receiver_id@,
    {
        TxBuilder {
            signer_id,
            public_key,
            method_name: String::new(),
            args: crate::json::null_args(),
            gas: DEFAULT_GAS,
            deposit: 0,
            receiver_id,
        }
    }

    /// Sets the contract method to call; every other field keeps its value.
    pub fn with_method_name(&mut self, method_name: &str)
        ensures
            final (self)@ == (TxBuilderImage { method_name: method_name@, ..old(self)@ }),
    {
        self.method_name = method_name.to_owned();
    }

    /// Stores the call arguments as their JSON encoding; every other field
    /// keeps its value.
    pub fn with_args(&mut self, args: serde_json::Value)
        ensures
            final (self)@ == (TxBuilderImage { args: crate::json::json_bytes(args), ..old(self)@ }),
    {
        self.args = crate::json::json_to_vec(&args);
    }

    /// Sets the gas limit; every other field keeps its value.
    pub fn with_gas(&mut self, gas: u64)
        ensures
            final (self)@ == (TxBuilderImage { gas: gas, ..old(self)@ }),
    {
        self.gas = gas;
    }

    /// Sets the attached deposit; every other field keeps its value.
    pub fn with_deposit(&mut self, deposit: u128)
        ensures
            final (self)@ == (TxBuilderImage { deposit: deposit, ..old(self)@ }),
    {
        self.deposit = deposit;
    }

    /// Assembles the unsigned transaction for a nonce and block hash, plus
    /// its content hash. Pure: the result is fixed by the builder's fields
    /// and the two inputs, so repeated calls agree byte for byte.
    pub fn build(&self, nonce: u64, block_hash: Vec<u8>) -> (r: (UnsignedTransaction, Vec<u8>))
        requires
            is_valid_account_id(self.signer_id@),
            is_valid_account_id(self.receiver_id@),
            block_hash@.len() == 32,
            self.method_name@.len() < 0x40000000,
            self.args@.len() < 0x100000000,
        ensures
            r.0@ == assembled(self@, nonce, block_hash@),
            r.0.wf(),
            r.1@ == tx_content_hash(r.0@),
            r.1@.len() == 32,
    {
        let action = CallAction {
            method_name: self.method_name.clone(),
            args: self.args.clone(),
            gas: self.gas,
            deposit: self.deposit,
        };
        let mut actions: Vec<CallAction> = Vec::new();
        actions.push(action);
        let tx = UnsignedTransaction {
            signer_id: self.signer_id.clone(),
            public_key: self.public_key.clone(),
            nonce: nonce,
            receiver_id: self.receiver_id.clone(),
            block_hash: block_hash,
            actions: actions,
        };
        proof {
            assert(tx@ =~~= assembled(self@, nonce, tx.block_hash@));
        }
        let content_hash = hash_built_transaction(&tx);
        (tx, content_hash)
    }
}

/// Assembly is deterministic: builders with the same image, handed the same
/// nonce and block hash, assemble the same transaction image, and that image
/// has one content hash.
pub proof fn lemma_assemble_deterministic(
    b1: TxBuilderImage,
    b2: TxBuilderImage,
    nonce: u64,
    block_hash: Seq<u8>,
)
    requires
        b1 == b2,
    ensures
        assembled(b1, nonce, block_hash) == assembled(b2, nonce, block_hash),
        tx_content_hash(assembled(b1, nonce, block_hash)) == tx_content_hash(
            assembled(b2, nonce, block_hash),
        ),
{
}

} // verus!
