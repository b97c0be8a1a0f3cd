[package]
name = "bitcoind_async_client"
version = "0.1.0"
edition = "2021"
publish = false

[dependencies]
base64 = "=0.22.1"
bitcoin = { version = "=0.32.102", features = ["serde"] }
bitreq = { version = "=0.3.8", features = ["async-https"] }
rustls = { version = "=0.23.46", default-features = false }
serde = { version = "=1.0.229", features = ["derive"] }
serde_json = "=1.0.154"
thiserror = "=2.0.21"
tokio = { version = "=1.54.1", features = ["sync", "time", "rt"] }
tracing = "=0.1.44"
