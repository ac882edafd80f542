[package]
name = "nika-tui"
version = "0.1.0"
edition = "2021"
publish = false

[dependencies]
rand = "=0.8.8"
anyhow = "1"
async-trait = "0.1"
crossterm = { version = "=0.27.0", features = ["event-stream"] }
futures = "0.3"
ratatui = "=0.26.3"
soup = "=0.5.1"
serde = { version = "1", features = ["derive"] }
tokio = { version = "1", features = ["rt-multi-thread", "macros", "sync", "time", "fs", "io-util", "process"] }
toml = "0.8"
reqwest = { version = "=0.12.28", default-features = false, features = ["rustls-tls", "gzip", "stream"] }
