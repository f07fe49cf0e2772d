[package]
name = "commit_wizard"
version = "0.1.0"
edition = "2021"
publish = false

[dependencies]
regex = "1"
regex-syntax = "0.8"
toml = "0.8"
serde = { version = "1", features = ["derive"] }
serde_json = "1"
chrono = "0.4"
git2 = "0.20"
