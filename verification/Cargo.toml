[package]
name = "escrow"
version = "0.1.0"
edition = "2021"
publish = false

[dependencies]
pinocchio = "=0.11.2"
pinocchio-token = "=0.7.0"
pinocchio-system = "=0.6.1"
pinocchio-associated-token-account = "=0.4.0"
solana-pubkey = { version = "=4.4.0", features = ["curve25519"] }
