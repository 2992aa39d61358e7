[package]
name = "polymarket_ws"
version = "0.1.0"
edition = "2021"
publish = false

[dependencies]
serde_json = "1"
rust_decimal = { version = "1", features = ["serde"] }
dashmap = "6"
tokio = { version = "1", features = ["rt", "macros", "net", "sync", "time"] }
tokio-tungstenite = { version = "*", features = ["rustls-tls-native-roots"] }
futures = "0.3"
async-stream = "0.3"
backoff = "0.4"
tracing = "0.1"
alloy = { version = "1", default-features = false }
serde = { version = "1", features = ["derive"] }
