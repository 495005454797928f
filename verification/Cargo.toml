[package]
name = "rift-client"
version = "0.1.0"
edition = "2021"
publish = false

[dependencies]
rifts = "=0.3.10"
serde_json = "=1.0.154"
tokio = { version = "=1.54.1", features = ["sync", "time", "rt", "macros", "net"] }
tokio-tungstenite = "=0.24.0"
futures-util = "=0.3.34"
tracing = "=0.1.44"
ulid = "=1.2.1"
uuid = { version = "=1.29.0", features = ["v7"] }
bytes = "=1.12.1"
