use near_tx_qx_builder::errors::{RequiredField, SendError};
use near_tx_qx_builder::near_qx_sender::NearQxSender;
use near_tx_qx_builder::near_tx_sender::{NearTxSender, DEFAULT_TIMEOUT_MS};
use near_tx_qx_builder::tx_builder::DEFAULT_GAS;

const RPC: &str = "https://rpc.testnet.near.org";
const KEY: &str = "ed25519:99eUso3aSbE9tqGSTXzo3TLfKb9RkMTURrHKQ1K7Zh3StnzFNUx8FKCPPPPpR479qsw5zv2WNBKmgiz7WqgAJfM";

fn full_tx_builder() -> near_tx_qx_builder::near_tx_sender::NearTxSenderBuilder {
    NearTxSender::builder(RPC)
        .account_sender("alice.testnet")
        .use_private_key(KEY)
        .account_receiver("counter.testnet")
        .method_name("set_value")
}

#[test]
fn tx_build_succeeds_when_every_required_field_is_set() {
    let sender = full_tx_builder().build().expect("fully configured builder must build");
    assert_eq!(sender.signer_id, "alice.testnet");
    assert_eq!(sender.tx_builder.receiver_id, "counter.testnet");
    assert_eq!(sender.tx_builder.method_name, "set_value");
    assert_eq!(sender.tx_builder.args, b"null".to_vec());
    assert_eq!(sender.tx_builder.gas, DEFAULT_GAS);
    assert_eq!(sender.tx_builder.deposit, 0);
    assert_eq!(sender.timeout_ms, DEFAULT_TIMEOUT_MS);
}

#[test]
fn tx_build_carries_gas_deposit_and_timeout() {
    let sender = full_tx_builder().gas(5_000_000_000_000).deposit(7).timeout(1_500)
        .build()
        .expect("fully configured builder must build");
    assert_eq!(sender.tx_builder.gas, 5_000_000_000_000);
    assert_eq!(sender.tx_builder.deposit, 7);
    assert_eq!(sender.timeout_ms, 1_500);
}

#[test]
fn tx_build_missing_sender() {
    let r = NearTxSender::builder(RPC)
        .use_private_key(KEY)
        .account_receiver("counter.testnet")
        .method_name("set_value")
        .build();
    assert_eq!(
        r.err(),
        Some(SendError::MissingConfiguration(RequiredField::AccountSender))
    );
}

#[test]
fn tx_build_missing_receiver() {
    let r = NearTxSender::builder(RPC)
        .account_sender("alice.testnet")
        .use_private_key(KEY)
        .method_name("set_value")
        .build();
    assert_eq!(
        r.err(),
        Some(SendError::MissingConfiguration(RequiredField::AccountReceiver))
    );
}

#[test]
fn tx_build_missing_private_key() {
    let r = NearTxSender::builder(RPC)
        .account_sender("alice.testnet")
        .account_receiver("counter.testnet")
        .method_name("set_value")
        .build();
    assert_eq!(
        r.err(),
        Some(SendError::MissingConfiguration(RequiredField::PrivateKey))
    );
}

#[test]
fn tx_build_missing_method_name() {
    let r = NearTxSender::builder(RPC)
        .account_sender("alice.testnet")
        .use_private_key(KEY)
        .account_receiver("counter.testnet")
        .build();
    assert_eq!(
        r.err(),
        Some(SendError::MissingConfiguration(RequiredField::MethodName))
    );
}

#[test]
fn tx_build_rejects_malformed_sender_account() {
    let r = full_tx_builder().account_sender("-bad-").build();
    assert_eq!(
        r.err(),
        Some(SendError::MalformedAccountId(RequiredField::AccountSender))
    );
}

#[test]
fn tx_build_rejects_malformed_receiver_account() {
    let r = full_tx_builder().account_receiver("a..b").build();
    assert_eq!(
        r.err(),
        Some(SendError::MalformedAccountId(RequiredField::AccountReceiver))
    );
}

#[test]
fn tx_build_rejects_bad_key_text() {
    let r = full_tx_builder().use_private_key("ed25519:not base58 at all!").build();
    assert_eq!(r.err(), Some(SendError::InvalidKeyFormat));
}

#[test]
fn tx_build_rejects_key_that_cannot_sign() {
    // 64 bytes that parse as an ed25519 key, but whose stored public half is
    // not the public key of the secret half: such a key cannot sign.
    let mismatched = "ed25519:2Ana1pUpv2ZbMVkwF5FXapYeBEjdxDatLn7nvJkhgTSXbs59SyZSx866bXirPgj8QQVB57uxHJBG1YFvkRbFj4T";
    assert!(mismatched.parse::<near_crypto::SecretKey>().is_ok());
    let r = full_tx_builder().use_private_key(mismatched).build();
    assert_eq!(r.err(), Some(SendError::InvalidKeyFormat));
}

#[test]
fn required_field_labels() {
    assert_eq!(RequiredField::AccountSender.label(), "account_sender");
    assert_eq!(RequiredField::AccountReceiver.label(), "account_receiver");
    assert_eq!(RequiredField::MethodName.label(), "method_name");
    assert_eq!(RequiredField::PrivateKey.label(), "private_key");
}

#[test]
fn qx_build_succeeds_with_receiver_and_method() {
    let sender = NearQxSender::builder(RPC)
        .account_receiver("counter.testnet")
        .method_name("get_value")
        .build()
        .expect("configured query builder must build");
    assert_eq!(sender.query_builder.account_id, "counter.testnet");
    assert_eq!(sender.query_builder.method_name, "get_value");
    assert_eq!(sender.query_builder.args, b"null".to_vec());
}

#[test]
fn qx_build_missing_receiver_names_the_field() {
    let r = NearQxSender::builder(RPC).method_name("get_value").build();
    match r {
        Err(SendError::MissingConfiguration(field)) => {
            assert_eq!(field, RequiredField::AccountReceiver);
            assert_eq!(field.label(), "account_receiver");
        }
        other => panic!("expected a missing-configuration error, got {:?}", other.err()),
    }
}

#[test]
fn qx_build_missing_method() {
    let r = NearQxSender::builder(RPC).account_receiver("counter.testnet").build();
    assert_eq!(
        r.err(),
        Some(SendError::MissingConfiguration(RequiredField::MethodName))
    );
}

#[test]
fn qx_build_rejects_malformed_receiver() {
    let r = NearQxSender::builder(RPC)
        .account_receiver("UPPER")
        .method_name("get_value")
        .build();
    assert_eq!(
        r.err(),
        Some(SendError::MalformedAccountId(RequiredField::AccountReceiver))
    );
}
