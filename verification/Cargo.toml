[package]
name = "prism"
version = "0.1.0"
edition = "2021"
publish = false

[dependencies]
rust_decimal = "*"
uuid = { version = "*", features = ["v4"] }
tokio = { version = "*", features = ["full"] }
tokio-tungstenite = { version = "*", features = ["native-tls"] }
futures = "*"
serde = { version = "*", features = ["derive"] }
serde_json = "*"
reqwest = { version = "*", features = ["json"] }
log = "*"
env_logger = "*"
tokio-postgres = "*"
