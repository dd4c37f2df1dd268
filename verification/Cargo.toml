[package]
name = "tukai"
version = "0.1.0"
edition = "2021"
publish = false

[dependencies]
anyhow = "1"
bincode = "1"
crossterm = { version = "0.28", features = ["event-stream"] }
dirs = "5"
futures = "0.3"
rand = "0.8"
ratatui = "0.29"
serde = { version = "1", features = ["derive"] }
tokio = { version = "1", features = ["macros", "rt-multi-thread", "sync", "time"] }
