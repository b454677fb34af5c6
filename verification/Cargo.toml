[package]
name = "etw_trace"
version = "0.1.0"
edition = "2021"
publish = false

[dependencies]
tracelogging_dynamic = "*"
opentelemetry = "*"
opentelemetry_sdk = "*"
serde = { version = "*", features = ["derive"] }
futures-executor = "*"
async-trait = "*"
futures-core = "*"
