[package]
name = "neoco"
version = "0.1.0"
edition = "2021"
publish = false

[dependencies]
regex = "=1.13.1"
serde = { version = "=1.0.229", features = ["derive"] }
serde_json = "=1.0.154"
toml = "=0.8.23"
tokio = { version = "=1.54.1", features = ["process", "time", "rt", "rt-multi-thread", "macros", "sync"] }
crossterm = { version = "=0.28.1", features = ["event-stream"] }
thiserror = "=2.0.21"
clap = { version = "=4.6.7", features = ["derive"] }
anyhow = "=1.0.104"
ulid = "=1.2.1"
tracing = "=0.1.44"
tracing-subscriber = { version = "=0.3.23", features = ["env-filter"] }
ratatui = "=0.29.0"
syntect = { version = "=5.3.0", default-features = false, features = ["default-fancy"] }
tokio-stream = "=0.1.19"
futures = "=0.3.34"
rig-core = "=0.32.0"

[dev-dependencies]
tempfile = "=3.27.0"
