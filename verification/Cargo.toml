[package]
name = "grepowski"
version = "0.1.0"
edition = "2021"
publish = false

[dependencies]
anyhow = "=1.0.104"
clap = { version = "=4.6.7", features = ["derive", "env"] }
clap_complete = "=4.6.11"
crossterm = { version = "=0.28.1", features = ["event-stream"] }
futures = "=0.3.34"
futures-util = "=0.3.34"
ratatui = "=0.29.0"
reqwest = { version = "=0.13.5", default-features = false }
serde = { version = "=1.0.229", features = ["derive"] }
serde_json = "=1.0.154"
syntect = { version = "=5.3.0", default-features = false, features = ["default-fancy"] }
syntect-tui = "=3.0.6"
tachyonfx = "=0.21.0"
tokio = { version = "=1.54.1", features = ["macros", "rt", "sync", "time"] }
