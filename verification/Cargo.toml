[package]
name = "solana_dex_demo"
version = "0.1.0"
edition = "2021"
publish = false

[dependencies]
solana-program = "=2.3.0"
spl-token = { version = "=7.0.0", features = ["no-entrypoint"] }
borsh = { version = "=1.8.1", features = ["derive"] }
anchor-lang = "=0.31.2"
anchor-spl = "=0.31.2"
