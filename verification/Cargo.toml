[package]
name = "paimon"
version = "0.1.0"
edition = "2021"
publish = false

[dependencies]
indicatif = "0.17"
is-url = "*"
reqwest = "0.12"
serde = { version = "1", features = ["derive"] }
serde_json = "1"
serde_yaml = "0.9"
