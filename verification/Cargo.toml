[package]
name = "zonesync"
version = "0.1.0"
edition = "2021"
publish = false

[dependencies]
serde_json = "1"
crossbeam-channel = "0.5"
hyper = { version = "0.14", features = ["client", "http1", "tcp"] }
tokio = { version = "1", features = ["rt", "net", "time"] }
