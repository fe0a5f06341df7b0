[package]
name = "acme_client"
version = "0.1.0"
edition = "2021"
publish = false

[dependencies]
base64 = "0.13"
http = "0.2"
hyper = { version = "0.14", features = ["client", "http1", "tcp"] }
hyper-rustls = "0.23"
serde = { version = "1", features = ["derive"] }
serde_json = "1"
tracing = "0.1"
