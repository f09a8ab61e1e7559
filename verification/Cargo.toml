[package]
name = "cw-orch-daemon"
version = "0.1.0"
edition = "2021"
publish = false

[dependencies]
cosmrs = { version = "=0.22.0", features = ["grpc", "cosmwasm"] }
bip39 = "=3.0.0"
cosmwasm-std = "=2.3.6"
cw20 = "=2.0.0"
cw20-base = "=2.0.0"
cw-multi-test = "=2.5.1"
serde = { version = "=1.0.229", features = ["derive"] }
serde_json = "=1.0.154"
tonic = "=0.13.1"
tokio = { version = "=1.54.1", features = ["time"] }

[dev-dependencies]
bitcoin = "=0.32.102"
k256 = "=0.13.4"
