[package]
name = "nova_telemetry"
version = "0.1.0"
edition = "2021"
publish = false

[dependencies]
base64 = "0.13"
novafc-data-format = "*"
serde_json = "*"
serde = { version = "*", features = ["derive"] }
