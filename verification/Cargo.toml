[package]
name = "slipless_hook"
version = "0.1.0"
edition = "2021"
publish = false

[dependencies]
solana-program = "1.18"
spl-tlv-account-resolution = "0.6"
spl-transfer-hook-interface = "0.6"
