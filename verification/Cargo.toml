[package]
name = "rollup_core"
version = "0.1.0"
edition = "2021"
publish = false

[dependencies]
actix-web = { version = "4", default-features = false }
async-channel = "2"
base64 = "0.22"
bincode = "1.3"
crossbeam = "0.8"
log = "0.4"
parking_lot = "0.12"
serde = { version = "1", features = ["derive"] }
serde_json = "1"
solana-sdk = "2"
tokio = { version = "1", features = ["time"] }
