[package]
name = "background_service"
version = "0.1.0"
edition = "2021"
publish = false

[dependencies]
dashmap = "6"
futures = "0.3"
thiserror = "2"
tokio = { version = "1", features = ["rt", "rt-multi-thread", "time", "sync", "macros", "signal"] }
tokio-util = { version = "0.7", features = ["rt"] }
tracing = "0.1"
