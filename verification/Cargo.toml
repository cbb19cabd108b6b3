[package]
name = "proxy_core"
version = "0.1.0"
edition = "2021"
publish = false

[dependencies]
aes = "0.8"
bytes = "1"
serde_json = "1"
tokio = { version = "1", features = ["net", "io-util", "time", "rt", "sync"] }
tracing = "0.1"
uuid = { version = "1", features = ["v3", "v4"] }
