[package]
name = "resource_explorer"
version = "0.1.0"
edition = "2021"
publish = false

[dependencies]
anyhow = "=1.0.104"
aws-smithy-types = "=1.9.1"
chrono = { version = "=0.4.45", default-features = false, features = ["clock", "std"] }
serde_json = "=1.0.154"
tokio = { version = "=1.54.1", features = ["time"] }
uuid = { version = "=1.29.0", features = ["v4"] }
