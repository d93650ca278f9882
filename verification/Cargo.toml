[package]
name = "staking_on_solana"
version = "0.1.0"
edition = "2021"
publish = false

[dependencies]
anchor-lang = { version = "0.30.1", features = ["init-if-needed"] }
anchor-spl = { version = "0.30.1", default-features = false, features = ["token"] }
spl-token = { version = "4.0.3", features = ["no-entrypoint"] }
