[package]
name = "reqwest_backoff"
version = "0.1.0"
edition = "2021"
publish = false

[dependencies]
chrono = "0.4"
url = "2"
reqwest = { version = "0.11", default-features = false }
tokio = { version = "1", features = ["time"] }
thiserror = "1"
tracing = "0.1"
