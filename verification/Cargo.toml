[package]
name = "tracing_channels"
version = "0.1.0"
edition = "2021"
publish = false

[dependencies]
flume = "*"
tokio = { version = "*", features = ["rt-multi-thread", "macros", "time", "sync"] }
tracing = "*"
tracing-subscriber = "*"
tracing-opentelemetry = "*"
opentelemetry = "*"
opentelemetry_sdk = "*"
serde = { version = "*", features = ["derive"] }
serde_json = "*"
