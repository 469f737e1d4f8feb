[package]
name = "avio_editor"
version = "0.1.0"
edition = "2021"
publish = false

[dependencies]
avio = { version = "=0.16.0", features = ["decode", "encode", "filter", "pipeline", "preview", "preview-proxy", "tokio", "serde"] }
ff-filter = "=0.16.0"
ff-format = "=0.16.0"
egui = { version = "=0.32.3", default-features = false }
env_logger = { version = "=0.11.11", default-features = false }
image = { version = "=0.25.10", default-features = false, features = ["png"] }
log = "=0.4.35"
serde = { version = "=1.0.229", features = ["derive"] }
serde_json = "=1.0.154"
tokio = { version = "=1.54.1", features = ["rt-multi-thread"] }
