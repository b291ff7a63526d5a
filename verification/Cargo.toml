[package]
name = "tracing_otel_http"
version = "0.1.0"
edition = "2021"
publish = false

[dependencies]
hyper = "*"
opentelemetry = "*"
tonic = { version = "*", default-features = false }
tower = "*"
tower-http = { version = "*", default-features = false, features = ["trace"] }
tracing = "*"
tracing-opentelemetry = "*"

[dev-dependencies]
opentelemetry_sdk = "*"
