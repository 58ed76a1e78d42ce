[package]
name = "spl_governance"
version = "0.1.0"
edition = "2021"
publish = false

[dependencies]
solana-program = "1"
spl-token = { version = "3", features = ["no-entrypoint"] }

[dev-dependencies]
borsh = "0.10"
