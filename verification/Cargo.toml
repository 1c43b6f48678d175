[package]
name = "ratekeeper"
version = "0.1.0"
edition = "2021"
publish = false

[dependencies]
anyhow = "=1.0.104"
async-trait = "=0.1.92"
axum = "=0.7.9"
axum-server = { version = "=0.7.3", features = ["tls-rustls"] }
moka = { version = "=0.12.16", features = ["future"] }
prometheus-client = "=0.22.3"
redis = { version = "=0.25.5", features = ["tokio-comp", "connection-manager"] }
serde = { version = "=1.0.229", features = ["derive"] }
serde_json = "=1.0.154"
thiserror = "=1.0.69"
tokio = { version = "=1.54.1", features = ["full"] }
tracing = "=0.1.44"
tracing-subscriber = { version = "=0.3.23", features = ["env-filter"] }
