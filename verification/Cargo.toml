[package]
name = "corpo_metrics"
version = "0.1.0"
edition = "2021"
publish = false

[dependencies]
async-std = { version = "1", features = ["attributes"] }
envconfig = "*"
futures = "0.3"
http = "*"
httparse = "1"
serde = { version = "1", features = ["derive"] }
serde_json = "1"
serde_stacker = "*"
