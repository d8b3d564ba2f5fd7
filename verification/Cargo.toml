[package]
name = "escrow_custody"
version = "0.1.0"
edition = "2021"
publish = false

[dependencies]
sha2 = "*"
curve25519-dalek = "*"

[dev-dependencies]
borsh = "*"
