[package]
name = "cts_lib"
version = "0.1.0"
edition = "2021"
publish = false

[dependencies]
sha2 = "0.10"
candid = "0.8"
ic-cdk = "0.7"
ic-cdk-macros = "0.6"
ic-ledger-types = "0.4"
ic-stable-structures = "0.5"
serde = { version = "1", features = ["derive"] }
serde_bytes = "0.11"
futures = "0.3"
