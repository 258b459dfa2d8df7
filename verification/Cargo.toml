[package]
name = "brane"
version = "0.1.0"
edition = "2021"
publish = false

[dependencies]
base64 = "0.13"
uuid = { version = "0.8", features = ["v4"] }
bollard = "0.11"
hyper = { version = "0.14", features = ["stream"] }
tokio = { version = "1", features = ["fs", "macros", "rt-multi-thread"] }
tokio-util = { version = "0.6", features = ["codec"] }
futures-util = "0.3"
serde = { version = "1", features = ["derive"] }
serde_json = "1"
anyhow = "1"
log = "0.4"
scylla = "0.2"
