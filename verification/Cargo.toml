[package]
name = "fleet"
version = "0.1.0"
edition = "2021"
publish = false

[dependencies]
solana-sdk = "*"
rand = "*"
clap = { version = "*", features = ["derive"] }
colored = "*"
tempfile = "*"
toml = "*"
serde = { version = "*", features = ["derive"] }
anyhow = "*"

[dev-dependencies]
semver = "*"
