pub mod account;
pub mod errors;
pub mod json;
pub mod keys;
pub mod models;
pub mod near_qx_sender;
pub mod near_tx_sender;
pub mod nonce_resolver;
pub mod qx_builder;
pub mod qx_dispatch;
pub mod tx_builder;
pub mod tx_dispatch;
