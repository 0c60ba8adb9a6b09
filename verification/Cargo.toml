[package]
name = "menahel"
version = "0.1.0"
edition = "2021"
publish = false

[dependencies]
sha2 = "=0.10.9"
uuid = { version = "1", features = ["v4"] }
serde = { version = "=1.0.229", features = ["derive"] }
reqwest = { version = "=0.12.28", default-features = false, features = ["json"] }
tokio = { version = "=1.54.1", features = ["rt-multi-thread", "macros", "sync", "time"] }
futures = "=0.3.34"
ratatui = "=0.29.0"
crossterm = { version = "=0.28.1", features = ["event-stream"] }
color-eyre = "=0.6.5"
anyhow = "=1.0.104"
