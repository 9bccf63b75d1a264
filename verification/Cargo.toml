[package]
name = "livedraw"
version = "0.1.0"
edition = "2021"
publish = false

[dependencies]
clap = { version = "*", features = ["derive"] }
dirs = "*"
isahc = "*"
rand = "*"
serde = { version = "*", features = ["derive"] }
serde_json = "*"
svg = "*"
