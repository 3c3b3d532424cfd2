[package]
name = "creature_agent"
version = "0.1.0"
edition = "2021"
publish = false

[dependencies]
anyhow = "1"
chrono = "=0.4.45"
futures = "0.3"
hyper = { version = "=0.14.32", features = ["client", "http1", "tcp"] }
hyper-tls = "=0.5.0"
qdrant-client = "=1.19.0"
serde = { version = "1", features = ["derive"] }
serde_json = "=1.0.151"
tokio = { version = "1", features = ["full"] }
tokio-stream = "0.1"
tonic = { version = "=0.12.3", features = ["tls"] }
tracing = "0.1"
