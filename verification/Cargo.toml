[package]
name = "voice_service"
version = "0.1.0"
edition = "2021"
publish = false

[dependencies]
md5 = "0.7"
anyhow = "1"
audiopus = "*"
chrono = "0.4"
futures = "0.3"
serde = { version = "1", features = ["derive"] }
serde_json = "1"
tokio = { version = "1", features = ["full"] }
tokio-stream = { version = "0.1", features = ["sync"] }
tokio-util = "0.7"
tracing = "0.1"
tracing-subscriber = { version = "0.3", features = ["env-filter", "fmt"] }
tsclientlib = "*"
tsproto-packets = "*"
