[package]
name = "bid_contract"
version = "0.1.0"
edition = "2021"
publish = false

[dependencies]
anchor-lang = "=1.2.1"
anchor-spl = { version = "=1.2.1", default-features = false, features = ["token", "solana-v3"] }
spl-token = { version = "=9.0.0", features = ["no-entrypoint"] }
solana-program = "=5.1.0"
