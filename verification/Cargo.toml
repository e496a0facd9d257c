[package]
name = "token_marketplace"
version = "0.1.0"
edition = "2021"
publish = false

[dependencies]
base64 = "=0.13.1"
bs58 = "=0.4.0"
rand = "=0.7.3"
solana-sdk = "=1.16.25"
spl-associated-token-account = { version = "=1.1.3", features = ["no-entrypoint"] }
spl-token = { version = "=3.5.0", features = ["no-entrypoint"] }
