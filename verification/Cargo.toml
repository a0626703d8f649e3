[package]
name = "ydelta"
version = "0.1.0"
edition = "2021"
publish = false

[dependencies]
solana-program = "=2.3.0"
borsh = { version = "=1.8.1", features = ["derive"] }
spl-token = { version = "=7.0.0", features = ["no-entrypoint"] }
spl-token-2022 = { version = "=7.0.0", features = ["no-entrypoint"] }
