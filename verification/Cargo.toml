[package]
name = "telemetry_attributes"
version = "0.1.0"
edition = "2021"
publish = false

[dependencies]
access-json = "0.1"
http = "0.2"
opentelemetry_api = "0.20"
opentelemetry-semantic-conventions = "0.12"
schemars = "0.8"
serde = { version = "1", features = ["derive"] }
serde_json = { version = "1", features = ["preserve_order"] }
serde_json_bytes = { version = "0.2", features = ["preserve_order"] }
tower = "0.4"
tracing = "0.1"
tracing-opentelemetry = "0.21"
