[package]
name = "librqbit"
version = "0.1.0"
edition = "2021"
publish = false

[dependencies]
serde_json = "1"
serde = { version = "1", features = ["derive"] }
http = "1"
reqwest = { version = "0.12", default-features = false }
anyhow = "1"
axum = "*"
tokio = { version = "1", features = ["rt", "time", "macros"] }
tokio-util = "0.7"
tracing = "0.1"
librqbit-utp = "*"
librqbit-dualstack-sockets = "*"
netns-rs = "*"
