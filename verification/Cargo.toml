[package]
name = "ghgrab"
version = "0.1.0"
edition = "2021"
publish = false

[dependencies]
url = "=2.5.8"
anyhow = "=1.0.104"
serde = { version = "=1.0.229", features = ["derive"] }
reqwest = { version = "=0.12.28", features = ["json"] }
tokio = { version = "=1.54.1", features = ["full"] }
crossterm = "=0.27.0"
ratatui = "=0.26.3"
dirs = "=5.0.1"
