[package]
name = "vellum-fe-tabbed"
version = "0.1.0"
edition = "2021"
publish = false

[dependencies]
anyhow = "1"
dirs = "5"
keyring = "2"
ratatui = "0.29"
serde = { version = "1", features = ["derive"] }
tokio = { version = "1", features = ["rt-multi-thread", "sync", "time", "macros"] }
toml = "0.8"
tracing = "0.1"
