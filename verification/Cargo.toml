[package]
name = "pinocchio_vault"
version = "0.1.0"
edition = "2021"
publish = false

[dependencies]
pinocchio = "*"
solana-pubkey = { version = "*", features = ["curve25519"] }
