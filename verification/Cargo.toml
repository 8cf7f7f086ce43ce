[package]
name = "mages_bridge"
version = "0.1.0"
edition = "2021"
publish = false

[dependencies]
blake3 = "*"
serde = { version = "*", features = ["derive"] }
serde_json = "*"
tokio = { version = "*", features = ["rt-multi-thread", "sync", "time", "macros"] }
uuid = { version = "*", features = ["v4"] }
