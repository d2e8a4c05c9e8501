[package]
name = "xrepotui"
version = "0.1.0"
edition = "2021"
publish = false

[dependencies]
anyhow = "=1.0.104"
chrono = "=0.4.45"
crossterm = { version = "=0.29.0", features = ["event-stream"] }
dirs = "=7.0.0"
figment = { version = "=0.10.19", features = ["toml"] }
futures = "=0.3.34"
octocrab = "=0.42.1"
ratatui = "=0.30.2"
serde = { version = "=1.0.229", features = ["derive"] }
thiserror = "=2.0.21"
tokio = { version = "=1.54.1", features = ["full"] }
