[package]
name = "kiro_cli"
version = "0.1.0"
edition = "2021"
publish = false

[dependencies]
chrono = "=0.4.45"
log = "=0.4.35"
serde = { version = "=1.0.229", features = ["derive"] }
serde_json = "=1.0.154"
uuid = { version = "=1.29.0", features = ["v4"] }
