[package]
name = "grant_metrics"
version = "0.1.0"
edition = "2021"
publish = false

[dependencies]
reqwest = { version = "0.11", features = ["json"] }
serde_json = "1"
tokio = { version = "1", features = ["macros", "rt-multi-thread"] }
git-download = "*"
prometheus_exporter = "0.8"
log = "0.4"
env_logger = "*"
