[package]
name = "bumpin_trade"
version = "0.1.0"
edition = "2021"
publish = false

[dependencies]
anchor-lang = "0.30.1"
anchor-spl = { version = "0.30.1", default-features = false, features = ["token"] }
solana-program = "1.18"
bytemuck = "1"
arrayref = "0.3"
pyth-solana-receiver-sdk = "*"
