[package]
name = "base"
version = "0.1.0"
edition = "2021"
publish = false

[dependencies]
async-channel = "1"
env_logger = { version = "0.10", default-features = false }
futures-util = { version = "0.3", features = ["sink"] }
log = "0.4"
tokio = { version = "1", features = ["full"] }
tokio-tungstenite = "0.20"
