[package]
name = "whitelist_vault"
version = "0.1.0"
edition = "2021"
publish = false

[dependencies]
anchor-lang = { version = "*", features = ["init-if-needed"] }
anchor-spl = "*"
spl-discriminator = "*"
spl-tlv-account-resolution = "*"
spl-token-2022 = "*"
spl-transfer-hook-interface = "*"
