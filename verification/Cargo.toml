[package]
name = "attest_gate"
version = "0.1.0"
edition = "2021"
publish = false

[dependencies]
dcap-qvl = "=0.6.5"
hex = "=0.4.3"
near-sdk = { version = "=5.29.1", features = ["non-contract-usage"] }
sha3 = "=0.12.0"
