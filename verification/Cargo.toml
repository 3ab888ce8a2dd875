[package]
name = "pinocchio_idl_examples"
version = "0.1.0"
edition = "2021"
publish = false

[dependencies]
pinocchio = "*"
pinocchio-system = "*"
pinocchio-token = "*"
pinocchio-associated-token-account = "*"
pinocchio-pubkey = "*"
solana-address = "*"
