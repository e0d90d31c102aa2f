[package]
name = "lan_ingest"
version = "0.1.0"
edition = "2021"
publish = false

[dependencies]
hyper = { version = "=0.14.32", features = ["server", "http1", "tcp", "stream"] }
local-ip-address = "=0.6.13"
multer = "=3.1.0"
serde = { version = "=1.0.229", features = ["derive"] }
serde_json = "=1.0.154"
tokio = { version = "=1.54.1", features = ["sync", "fs", "io-util", "rt-multi-thread"] }
tokio-stream = { version = "=0.1.19", features = ["sync"] }
