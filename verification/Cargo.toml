[package]
name = "solana_programs"
version = "0.1.0"
edition = "2021"
publish = false

[dependencies]
anchor-lang = "0.31"
anchor-spl = { version = "0.31", default-features = false }
ephemeral-rollups-sdk = { version = "*", features = ["anchor"] }
ephemeral-vrf-sdk = { version = "*", features = ["anchor"] }
tuktuk-program = "*"
