[package]
name = "notification_connection"
version = "0.1.0"
edition = "2021"
publish = false

[dependencies]
bytes = "1"
futures = "0.3"
tokio = { version = "1", features = ["sync", "macros", "rt"] }
tokio-util = "0.7"
tracing = "0.1"
