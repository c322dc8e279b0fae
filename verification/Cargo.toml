[package]
name = "staking"
version = "0.1.0"
edition = "2021"
publish = false

[dependencies]
alloy = { version = "=2.5.0", default-features = false, features = ["std", "contract", "provider-http", "reqwest", "signer-local", "network", "rpc-types"] }
serde = { version = "=1.0.229", features = ["derive"] }
tokio = { version = "1", features = ["sync"] }
