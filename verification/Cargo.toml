[package]
name = "currency"
version = "0.1.0"
edition = "2021"
publish = false

[dependencies]
candid = "0.10"
ic-cdk = "0.17"
ic-ledger-types = "0.14"
ic-stable-structures = "0.6"
num-traits = "0.2"
serde = { version = "1", features = ["derive"] }
serde_bytes = "0.11"
thiserror = "1"
