[package]
name = "htlc_escrow"
version = "0.1.0"
edition = "2021"
publish = false

[dependencies]
soroban-sdk = { version = "=29.0.0", features = ["testutils"] }

[dev-dependencies]
rand = "=0.10.3"
