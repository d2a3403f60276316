[package]
name = "face_relay"
version = "0.1.0"
edition = "2021"
publish = false

[dependencies]
serde_json = "1"
tokio = { version = "1", features = ["rt-multi-thread", "net", "process", "io-util", "sync", "time", "macros"] }
tokio-tungstenite = "*"
futures-util = "0.3"
