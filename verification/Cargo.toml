[package]
name = "h2_poll_traces"
version = "0.1.0"
edition = "2021"
publish = false

[dependencies]
hyper = { version = "=0.14.32", features = ["full"] }
tokio = { version = "=1.53.2", features = ["full"] }
tracing = "=0.1.44"
tracing-subscriber = "=0.3.23"
tracing-opentelemetry = "=0.21.0"
opentelemetry = { version = "=0.20.0", features = ["rt-tokio"] }
opentelemetry-otlp = "=0.13.0"
opentelemetry-semantic-conventions = "=0.12.0"
