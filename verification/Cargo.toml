[package]
name = "hw_xapp"
version = "0.1.0"
edition = "2021"
publish = false

[dependencies]
axum = "=0.6.20"
env_logger = "=0.10.2"
log = "=0.4.34"
serde = { version = "=1.0.229", features = ["derive"] }
serde_json = "=1.0.154"
tokio = { version = "=1.54.1", features = ["fs", "macros", "rt-multi-thread"] }
