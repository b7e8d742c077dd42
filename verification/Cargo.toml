[package]
name = "near_tx_qx_builder"
version = "0.1.0"
edition = "2021"
publish = false

[dependencies]
serde_json = "=1.0.151"
ed25519-dalek = "=2.2.0"
near-crypto = "=0.37.4"
near-primitives = "=0.37.4"
near-jsonrpc-client = "=0.22.0"
near-jsonrpc-primitives = "=0.37.4"
tokio = { version = "=1.53.2", default-features = false, features = ["time"] }
