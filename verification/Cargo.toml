[package]
name = "simple_bet"
version = "0.1.0"
edition = "2021"
publish = false

[dependencies]
near-sdk = { version = "=5.29.1", default-features = false, features = ["non-contract-usage"] }
serde = { version = "=1.0.229", features = ["derive"] }
serde_json = "=1.0.151"
