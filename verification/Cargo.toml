[package]
name = "fusion_escrow"
version = "0.1.0"
edition = "2021"
publish = false

[dependencies]
near-sdk = { version = "5", features = ["unit-testing"] }
near-contract-standards = "5"
hex = "0.4"
