[package]
name = "rust_basics"
version = "0.1.0"
edition = "2021"
publish = false

[dependencies]
aes-gcm = "=0.10.3"
anyhow = "=1.0.104"
arc-swap = "=1.9.3"
axum = "=0.8.9"
base64 = "=0.22.1"
bytes = "=1.12.1"
dashmap = "=6.2.1"
envy = "=0.4.2"
governor = "=0.10.4"
opentelemetry = "=0.33.1"
opentelemetry-otlp = { version = "=0.33.1", features = ["grpc-tonic"] }
opentelemetry_sdk = "=0.33.1"
opentelemetry-semantic-conventions = "=0.33.1"
prometheus = { version = "=0.14.0", features = ["process"] }
rand = "=0.10.3"
rdkafka = "=0.39.0"
redis = { version = "=1.8.1", features = ["tokio-comp", "connection-manager"] }
reqwest = "=0.13.5"
secrecy = "=0.10.3"
serde = { version = "=1.0.229", features = ["derive"] }
serde_json = "=1.0.154"
serde_yaml_ng = "=0.10.0"
thiserror = "=2.0.21"
tokio = { version = "=1.54.1", features = ["full"] }
tower-http = { version = "=0.7.1", features = ["trace"] }
tracing = "=0.1.44"
tracing-opentelemetry = "=0.34.0"
tracing-subscriber = { version = "=0.3.23", features = ["env-filter", "json"] }
uuid = { version = "=1.29.0", features = ["v4"] }
