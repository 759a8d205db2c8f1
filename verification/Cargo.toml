[package]
name = "aptos_txn_core"
version = "0.1.0"
edition = "2021"
publish = false

[dependencies]
ed25519-dalek = "2"
once_cell = "1"
sha3 = "0.10"
num = "0.4"
hex = "0.4"
serde = { version = "1", features = ["derive"] }
candid = "0.10"

[dev-dependencies]
bcs = "0.1"
