use near_tx_qx_builder::errors::SendError;
use near_tx_qx_builder::near_qx_sender::NearQxSender;
use near_tx_qx_builder::qx_builder::QueryBuilder;
use near_tx_qx_builder::qx_dispatch::{extract_call_result, QueryResponseEvent};
use near_tx_qx_builder::tx_dispatch::ConfirmationLevel;

#[test]
fn call_result_payload_is_returned_untouched() {
    let r = extract_call_result(QueryResponseEvent::CallResult(b"{\"v\":3}".to_vec()));
    assert_eq!(r, Ok(b"{\"v\":3}".to_vec()));
}

#[test]
fn non_call_result_shape_is_the_shape_error_not_garbage() {
    let r = extract_call_result(QueryResponseEvent::OtherKind);
    assert_eq!(r, Err(SendError::UnexpectedResponseShape));
}

#[test]
fn query_transport_failure_is_retriable_transport_error() {
    let r = extract_call_result(QueryResponseEvent::TransportFailure);
    assert_eq!(r, Err(SendError::TransportError));
}

#[test]
fn query_builder_defaults_and_setters() {
    let mut b = QueryBuilder::new("counter.testnet".to_string());
    assert_eq!(b.method_name, "");
    assert_eq!(b.args, b"null".to_vec());
    assert_eq!(b.finality, ConfirmationLevel::Finalized);
    b.with_method_name("get_value");
    let mut m = serde_json::Map::new();
    m.insert("key".to_string(), serde_json::Value::from(5));
    b.with_args(serde_json::Value::Object(m));
    let request = b.build();
    assert_eq!(request.account_id, "counter.testnet");
    assert_eq!(request.method_name, "get_value");
    assert_eq!(request.args, b"{\"key\":5}".to_vec());
    assert_eq!(request.finality, ConfirmationLevel::Finalized);
}

#[test]
fn query_sender_request_carries_the_configuration() {
    let sender = NearQxSender::builder("https://rpc.mainnet.near.org")
        .account_sender("alice.near")
        .account_receiver("counter.near")
        .method_name("get_value")
        .build()
        .expect("configured query builder must build");
    let request = sender.query_request();
    assert_eq!(request.account_id, "counter.near");
    assert_eq!(request.method_name, "get_value");
    assert_eq!(request.args, b"null".to_vec());
    assert_eq!(request.finality, ConfirmationLevel::Finalized);
}

#[test]
fn query_args_are_encoded_json() {
    let sender = NearQxSender::builder("https://rpc.mainnet.near.org")
        .account_receiver("counter.near")
        .method_name("get_value")
        .args(serde_json::Value::String("abc".to_string()))
        .build()
        .expect("configured query builder must build");
    assert_eq!(sender.query_builder.args, b"\"abc\"".to_vec());
}
