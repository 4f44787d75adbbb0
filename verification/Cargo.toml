[package]
name = "harvest_client"
version = "0.1.0"
edition = "2021"
publish = false

[dependencies]
base64 = "0.21"
secrecy = "0.8"
serde_json = "1"
http = "0.2"
hyper = { version = "0.14", features = ["client", "http1", "http2", "tcp"] }
hyper-rustls = "0.24"
tokio = { version = "1", features = ["rt", "time", "macros"] }
chrono = "0.4"
log = "0.4"
