[package]
name = "geneva_exporter"
version = "0.1.0"
edition = "2021"
publish = false

[dependencies]
arrow-array = "=60.0.0"
async-trait = "=0.1.92"
geneva-uploader = "=0.4.0"
humantime-serde = "1"
linkme = "=0.3.37"
opentelemetry-proto = { version = "=0.31.0", default-features = false, features = ["logs", "gen-tonic-messages"] }
serde = { version = "=1.0.229", features = ["derive"] }
serde_json = "=1.0.154"
tokio = { version = "=1.54.1", features = ["time"] }
