[package]
name = "oridion"
version = "0.1.0"
edition = "2021"
publish = false

[dependencies]
anchor-lang = { version = "0.31.1", features = ["init-if-needed"] }
solana-security-txt = "1.1.1"
spl-memo = "6.0.0"
