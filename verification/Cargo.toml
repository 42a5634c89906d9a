[package]
name = "jarvis_voice"
version = "0.1.0"
edition = "2021"
publish = false

[dependencies]
cpal = "0.15"
env_logger = "0.11"
log = "0.4"
ort = "2.0.0-rc.10"
parking_lot = "0.12"
rubato = "0.15"
serde = { version = "1", features = ["derive"] }
serde_json = "1"
thiserror = "1"
tokio = { version = "1", features = ["sync", "rt"] }
