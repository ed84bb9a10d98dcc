[package]
name = "redis_kv_client"
version = "0.1.0"
edition = "2021"
publish = false

[dependencies]
redis = { version = "=0.27.6", features = ["cluster-async", "connection-manager", "tokio-comp"] }
tokio = { version = "=1.53.2", features = ["sync", "rt"] }
serde = { version = "=1.0.229", features = ["derive"] }
