[package]
name = "tastytrade"
version = "0.1.0"
edition = "2021"
publish = false

[dependencies]
dxlink = "*"
flume = "*"
futures-util = "0.3"
serde = { version = "1", features = ["derive"] }
serde_json = "1"
tokio = { version = "1", features = ["rt-multi-thread", "macros", "sync", "time"] }
tokio-tungstenite = "*"
tracing = "0.1"
tracing-subscriber = "0.3"
dotenv = "0.15"
