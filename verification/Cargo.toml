[package]
name = "jetstream_oxide"
version = "0.1.0"
edition = "2021"
publish = false

[dependencies]
url = "2"
zstd = "0.13"
serde = { version = "1", features = ["derive"] }
serde_json = "1"
thiserror = "1"
chrono = { version = "0.4", features = ["serde"] }
atrium-api = "*"
flume = "0.11"
futures-util = "0.3"
tokio = { version = "1", features = ["rt", "net"] }
tokio-tungstenite = { version = "*", features = ["rustls-tls-webpki-roots"] }
log = "0.4"
