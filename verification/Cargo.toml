[package]
name = "kucoin_trade"
version = "0.1.0"
edition = "2021"
publish = false

[dependencies]
base64 = "0.13"
chrono = "0.4"
futures-util = "0.3"
json = "0.12"
reqwest = { version = "0.11", default-features = false, features = ["json", "rustls-tls"] }
ring = "0.17"
serde = { version = "1", features = ["derive"] }
serde_json = "1"
tokio = { version = "1", features = ["macros", "rt-multi-thread", "fs", "net"] }
tokio-tungstenite = "0.20"
tungstenite = "0.20"
url = "2"
uuid = { version = "1", features = ["v4"] }
