[package]
name = "clash_ico"
version = "0.1.0"
edition = "2021"
publish = false

[dependencies]
borsh = "0.9"
solana-program = "1"
spl-associated-token-account = { version = "1", default-features = false, features = ["no-entrypoint"] }
spl-token = { version = "3", default-features = false, features = ["no-entrypoint"] }
thiserror = "1"
