[package]
name = "private_swap"
version = "0.1.0"
edition = "2021"
publish = false

[dependencies]
anchor-lang = "=0.31.2"
ephemeral-rollups-sdk = { version = "=0.17.3", features = ["anchor-compat", "access-control"] }
inco-lightning = "=0.1.4"
