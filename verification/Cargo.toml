[package]
name = "blueshift_vault"
version = "0.1.0"
edition = "2021"
publish = false

[dependencies]
pinocchio = "*"
pinocchio-system = "*"
solana-program-log = "*"
solana-address = { version = "*", features = ["curve25519"] }
