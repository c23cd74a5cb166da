[package]
name = "solana_tpu_client_cc"
version = "0.1.0"
edition = "2021"
publish = false

[dependencies]
serde = { version = "1", features = ["derive"] }
thiserror = "1"
solana-sdk = "2"
