[package]
name = "quadratic_funding"
version = "0.1.0"
edition = "2021"
publish = false

[dependencies]
solana-program = "1"
spl-math = { version = "0.1", features = ["no-entrypoint"] }
spl-token = { version = "3", features = ["no-entrypoint"] }
spl-associated-token-account = { version = "~1.0", features = ["no-entrypoint"] }
thiserror = "1"
num-derive = "0.3"
num-traits = "0.2"
