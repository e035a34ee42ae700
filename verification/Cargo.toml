[package]
name = "chronos"
version = "0.1.0"
edition = "2021"
publish = false

[dependencies]
chrono = "0.4"
serde_json = "1"
prometheus = "0.13"
rdkafka = "0.36"
tokio = { version = "1", features = ["full"] }
tokio-postgres = "0.7"
axum = "0.7"
log = "0.4"
tracing = "0.1"
opentelemetry_api = "0.20"
opentelemetry_sdk = "0.20"
opentelemetry-jaeger = "0.19"
