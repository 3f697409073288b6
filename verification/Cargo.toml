[package]
name = "stellar_card_receiver"
version = "0.1.0"
edition = "2021"
publish = false

[dependencies]
soroban-sdk = "25"

[dev-dependencies]
soroban-sdk = { version = "25", features = ["testutils"] }
