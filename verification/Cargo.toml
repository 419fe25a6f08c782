[package]
name = "token_codec"
version = "0.1.0"
edition = "2021"
publish = false

[dependencies]
spl-token = { version = "*", features = ["no-entrypoint"] }
solana-program = "*"
