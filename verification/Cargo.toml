[package]
name = "homecore-assist"
version = "0.1.0"
edition = "2021"
publish = false

[dependencies]
async-trait = "0.1"
serde = { version = "1", features = ["derive"] }
serde_json = "1"
thiserror = "1"
tokio = { version = "1", features = ["io-util", "macros", "process", "rt", "sync", "time"] }
tracing = "0.1"
