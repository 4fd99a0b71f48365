[package]
name = "request_tracing"
version = "0.1.0"
edition = "2021"
publish = false

[dependencies]
axum = { version = "=0.6.20", default-features = false }
http = "=0.2.12"
opentelemetry = "=0.21.0"
opentelemetry-http = "=0.10.0"
opentelemetry-otlp = "=0.14.0"
opentelemetry_sdk = { version = "=0.21.2", features = ["rt-tokio"] }
opentelemetry-semantic-conventions = "=0.13.0"
tokio = { version = "=1.54.1", features = ["rt", "rt-multi-thread"] }
tracing = "=0.1.44"
tracing-opentelemetry = "=0.22.0"
tracing-subscriber = { version = "=0.3.23", features = ["env-filter", "json"] }
