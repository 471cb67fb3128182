[package]
name = "ledger_core"
version = "0.1.0"
edition = "2021"
publish = false

[dependencies]
solana-address = { version = "*", features = ["sha2", "curve25519"] }
pinocchio = "*"
pinocchio-system = "*"
pinocchio-token = "*"
pinocchio-associated-token-account = "*"
