[package]
name = "onsocial_relayer"
version = "0.1.0"
edition = "2021"
publish = false

[dependencies]
near-sdk = { version = "=5.30.0", features = ["non-contract-usage"] }
near-crypto = "=0.38.0"
ed25519-dalek = "=2.2.0"
base64 = "=0.22.1"
hex = "=0.4.3"
serde = { version = "1", features = ["derive"] }
serde_json = "=1.0.154"
clap = "=4.6.7"
