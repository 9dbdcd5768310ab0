[package]
name = "token_issuance"
version = "0.1.0"
edition = "2021"
publish = false

[dependencies]
anchor-lang = "*"
anchor-spl = "*"
anyhow = "*"
clap = { version = "*", features = ["derive"] }
