[package]
name = "proxy_monitor"
version = "0.1.0"
edition = "2021"
publish = false

[dependencies]
atomic-instant = "*"
env_logger = "*"
log = "0.4"
rand = "0.8"
reqwest = { version = "0.11", features = ["json"] }
serde = { version = "1", features = ["derive"] }
serde_json = "1"
serde_yaml = "0.9"
tokio = { version = "1", features = ["full"] }
