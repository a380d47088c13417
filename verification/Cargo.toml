[package]
name = "opentelemetry_instrumentation_process"
version = "0.1.0"
edition = "2021"
publish = false

[dependencies]
opentelemetry = { version = "*", features = ["metrics"] }
opentelemetry-semantic-conventions = { version = "*", features = ["semconv_experimental"] }
procfs = "*"
