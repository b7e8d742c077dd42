use near_tx_qx_builder::errors::{RequiredField, SendError};
use near_tx_qx_builder::near_tx_sender::NearTxSender;
use near_tx_qx_builder::nonce_resolver::AccessKeyLookup;
use near_tx_qx_builder::tx_dispatch::{
    classify_submission, ConfirmationLevel, ExecutionResult, ExecutionStatus, SubmitOutcome,
};

const RPC: &str = "https://rpc.testnet.near.org";
const KEY: &str = "ed25519:99eUso3aSbE9tqGSTXzo3TLfKb9RkMTURrHKQ1K7Zh3StnzFNUx8FKCPPPPpR479qsw5zv2WNBKmgiz7WqgAJfM";

fn built_sender() -> near_tx_qx_builder::near_tx_sender::NearTxSender {
    let mut m = serde_json::Map::new();
    m.insert("x".to_string(), serde_json::Value::from(1));
    NearTxSender::builder(RPC)
        .account_sender("alice.testnet")
        .use_private_key(KEY)
        .account_receiver("counter.testnet")
        .method_name("set_value")
        .args(serde_json::Value::Object(m))
        .build()
        .expect("fully configured builder must build")
}

#[test]
fn scenario_stored_nonce_41_finalized_success() {
    let sender = built_sender();
    let block_hash = vec![5u8; 32];
    let prepared = sender
        .prepare_transaction(AccessKeyLookup::Found { nonce: 41, block_hash: block_hash.clone() })
        .expect("a found key prepares a transaction");

    // The submitted transaction carries next-nonce 42, never the stored 41.
    assert_eq!(prepared.transaction.nonce, 42);
    assert_eq!(prepared.transaction.signer_id, "alice.testnet");
    assert_eq!(prepared.transaction.receiver_id, "counter.testnet");
    assert_eq!(prepared.transaction.block_hash, block_hash);
    assert_eq!(prepared.transaction.actions.len(), 1);
    assert_eq!(prepared.transaction.actions[0].method_name, "set_value");
    assert_eq!(prepared.transaction.actions[0].args, b"{\"x\":1}".to_vec());
    assert_eq!(prepared.wait_until, ConfirmationLevel::Finalized);

    // The signed wire transaction agrees with the unsigned image, and its
    // signature verifies against the sender's public key.
    let wire = &prepared.signed.transaction;
    assert_eq!(wire.nonce().nonce(), 42);
    assert_eq!(wire.signer_id().as_str(), "alice.testnet");
    assert_eq!(wire.receiver_id().as_str(), "counter.testnet");
    let (wire_hash, _) = wire.get_hash_and_size();
    assert_eq!(prepared.content_hash, wire_hash.as_ref().to_vec());
    assert!(prepared.signed.signature.verify(wire_hash.as_ref(), &sender.public_key));

    // The mocked dispatcher accepts and finalizes: the result is a success.
    let outcome = SubmitOutcome::Confirmed(ExecutionStatus::Success(b"ok".to_vec()));
    assert_eq!(
        classify_submission(outcome),
        Ok(ExecutionResult::Success(b"ok".to_vec()))
    );
}

#[test]
fn scenario_missing_receiver_fails_before_any_network_step() {
    let r = NearTxSender::builder(RPC)
        .account_sender("alice.testnet")
        .use_private_key(KEY)
        .method_name("set_value")
        .build();
    match r {
        Err(SendError::MissingConfiguration(field)) => {
            assert_eq!(field, RequiredField::AccountReceiver);
            assert_eq!(field.label(), "account_receiver");
        }
        other => panic!("expected a missing-configuration error, got {:?}", other),
    }
}

#[test]
fn scenario_timeout_leaves_a_status_by_hash_handle() {
    let sender = built_sender();
    let prepared = sender
        .prepare_transaction(AccessKeyLookup::Found { nonce: 41, block_hash: vec![5u8; 32] })
        .expect("a found key prepares a transaction");

    // The dispatcher never observes a confirmation within the timeout: the
    // result is the ambiguous outcome, never a silent success or failure.
    let r = classify_submission(SubmitOutcome::TimedOutAfterBroadcast);
    assert_eq!(r, Err(SendError::AmbiguousOutcome));

    // The documented recovery path is a status query by the content hash,
    // which the prepared transaction still carries.
    assert_eq!(prepared.content_hash.len(), 32);
    let (wire_hash, _) = prepared.signed.transaction.get_hash_and_size();
    assert_eq!(prepared.content_hash, wire_hash.as_ref().to_vec());
}

#[test]
fn transport_failure_before_broadcast_stays_distinct_end_to_end() {
    let sender = built_sender();
    let r = sender.prepare_transaction(AccessKeyLookup::Unreachable);
    assert_eq!(r.err(), Some(SendError::TransportError));
    let r = sender.prepare_transaction(AccessKeyLookup::KeyMissing);
    assert_eq!(r.err(), Some(SendError::AccessKeyNotFound));
}
