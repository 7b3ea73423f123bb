[package]
name = "potatohead"
version = "0.1.0"
edition = "2021"
publish = false

[dependencies]
serde_json = "=1.0.154"
regex = "=1.13.1"
base64 = "=0.22.1"
serde = { version = "=1.0.229", features = ["derive"] }
uuid = { version = "=1.29.0", features = ["v7"] }
chrono = "=0.4.45"
serde_yaml = "0.9"
