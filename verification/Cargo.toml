[package]
name = "telemetry_pipeline"
version = "0.1.0"
edition = "2021"
publish = false

[dependencies]
axum = "0.6"
console-subscriber = "0.1"
error-stack = "0.3"
opentelemetry = { version = "0.19", features = ["rt-tokio"] }
opentelemetry-otlp = "0.12"
tokio = { version = "1", features = ["full"] }
tonic = "0.8"
tracing = "0.1"
tracing-error = "0.2"
tracing-opentelemetry = "0.19"
tracing-subscriber = { version = "0.3", features = ["env-filter"] }
