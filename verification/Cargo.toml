[package]
name = "structured_persistent_logger"
version = "0.1.0"
edition = "2021"
publish = false

[dependencies]
chrono = "=0.4.45"
lazy_static = "=1.5.1"
log = { version = "=0.4.34", features = ["std"] }
serde_json = "=1.0.154"
