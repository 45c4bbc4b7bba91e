[package]
name = "ymessenger"
version = "0.1.0"
edition = "2021"
publish = false

[dependencies]
uuid = { version = "=1.29.0", features = ["v4"] }
urlencoding = "=2.1.3"
base64 = "=0.22.1"
prost = "=0.13.5"
serde = { version = "=1.0.229", features = ["derive"] }
serde_json = "=1.0.154"
tokio = { version = "=1.54.1", features = ["rt-multi-thread", "macros", "sync", "time", "net"] }
tokio-tungstenite = "=0.24.0"
futures = "=0.3.34"
dirs = "=5.0.1"
log = "=0.4.35"
reqwest = { version = "=0.12.28", default-features = false, features = ["json", "multipart"] }
chrono = { version = "=0.4.45", default-features = false, features = ["clock", "std"] }
