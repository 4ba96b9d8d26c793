[package]
name = "zkpassport"
version = "0.1.0"
edition = "2021"
publish = false

[dependencies]
anyhow = "1"
borsh = { version = "1", features = ["derive"] }
serde = { version = "1", features = ["derive"] }
hyli-contract-sdk = "0.14.0"
hyli-client-sdk = { version = "0.14.0", default-features = false }
