[package]
name = "slack"
version = "0.1.0"
edition = "2021"
publish = false

[dependencies]
serde = "=1.0.229"
serde_json = { version = "=1.0.154", features = ["preserve_order"] }
url = "=2.5.8"
slack_api = { version = "=0.23.1", features = ["sync", "reqwest_blocking"] }
futures = "=0.3.34"
tokio = { version = "=1.54.1", features = ["full"] }
native-tls = "=0.2.18"
tungstenite = "=0.30.0"
tokio-tungstenite = { version = "=0.30.0", features = ["native-tls"] }
reqwest = "=0.13.5"
log = "0.4"
