[package]
name = "cyberbard"
version = "0.1.0"
edition = "2021"
publish = false

[dependencies]
walkdir = "=2.5.0"
serde = { version = "=1.0.229", features = ["derive"] }
toml = "=1.1.7"
