[package]
name = "pg_otel"
version = "0.1.0"
edition = "2021"
publish = false

[dependencies]
heapless = "=0.8.0"
libc = "=0.2.191"
opentelemetry = "=0.33.1"
opentelemetry_sdk = "=0.33.1"
opentelemetry-otlp = { version = "=0.33.1", features = ["grpc-tonic", "tls-ring"] }
pgrx = { version = "=0.16.1", features = ["pg17"] }
tokio = { version = "=1.54.1", features = ["rt"] }
tonic = { version = "=0.14.9", features = ["tls-ring"] }
