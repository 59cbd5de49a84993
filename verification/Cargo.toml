[package]
name = "devstudio"
version = "0.1.0"
edition = "2021"
publish = false

[dependencies]
sha2 = "=0.10.9"
hex = "=0.4.3"
uuid = { version = "=1.29.1", features = ["v4"] }
dashmap = "=6.2.1"
redis = { version = "=0.27.6", default-features = false, features = ["tokio-comp"] }
chrono = "=0.4.45"
serde = { version = "=1.0.229", features = ["derive"] }
serde_json = { version = "=1.0.154", features = ["preserve_order"] }
tokio = { version = "=1.54.1", features = ["full"] }
tokio-stream = { version = "=0.1.19", features = ["sync"] }
futures = "=0.3.34"
async-trait = "=0.1.92"
anyhow = "=1.0.104"
thiserror = "=2.0.21"
axum = "=0.8.9"
tower-http = { version = "=0.6.11", features = ["compression-gzip", "cors", "timeout", "trace"] }
reqwest = { version = "=0.12.28", default-features = false, features = ["json"] }
jsonwebtoken = "=9.3.1"
metrics = "=0.24.6"
metrics-exporter-prometheus = { version = "=0.16.2", default-features = false }
tracing = "=0.1.44"
tracing-subscriber = { version = "=0.3.23", features = ["env-filter", "json"] }
dotenvy = "=0.15.7"
bollard = "=0.18.1"
