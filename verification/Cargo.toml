[package]
name = "slumber"
version = "0.1.0"
edition = "2021"
publish = false

[dependencies]
anyhow = "=1.0.104"
dirs = "=7.0.0"
persisted = "=1.0.1"
ratatui = "=0.30.2"
serde = { version = "=1.0.229", features = ["derive"] }
