[package]
name = "chat"
version = "0.1.0"
edition = "2021"
publish = false

[dependencies]
tokio = { version = "=1.54.1", features = ["full"] }
tokio-tungstenite = "=0.26.2"
tungstenite = "=0.26.2"
futures-util = { version = "=0.3.34", features = ["sink"] }
tokio-util = "=0.7.20"
serde = { version = "=1.0.229", features = ["derive"] }
serde_json = "=1.0.154"
uuid = { version = "=1.29.0", features = ["v4"] }
getrandom = "=0.4.3"
log = "=0.4.35"
env_logger = "=0.11.11"
chrono = "=0.4.45"
colored = "=3.1.1"
