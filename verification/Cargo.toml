[package]
name = "sandbag_watch"
version = "0.1.0"
edition = "2021"
publish = false

[dependencies]
serde = { version = "=1.0.229", features = ["derive"] }
serde_json = "=1.0.151"
serde_with = "=3.24.0"
chrono = { version = "=0.4.45", features = ["serde"] }
config = "=0.15.27"
env_logger = "=0.11.11"
log = "=0.4.34"
reqwest = { version = "=0.13.5", default-features = false, features = ["form", "json", "stream"] }
tokio = { version = "=1.53.2", features = ["macros", "rt-multi-thread", "time", "io-util"] }
tokio-stream = { version = "=0.1.19", features = ["io-util"] }
tokio-util = { version = "=0.7.19", features = ["io"] }
futures-util = "=0.3.34"
