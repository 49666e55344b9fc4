[package]
name = "adapter_client_stripe"
version = "0.1.0"
edition = "2021"
publish = false

[dependencies]
aes-siv = "=0.7.0"
axum = "=0.7.9"
base64 = "=0.22.1"
dotenv = "=0.15.0"
hmac = "=0.12.1"
http = "=1.5.0"
json-canon = "=0.1.3"
rand = "=0.8.8"
reqwest = { version = "=0.12.28", default-features = false, features = ["json"] }
serde = { version = "=1.0.229", features = ["derive"] }
serde_json = "=1.0.154"
sha1 = "=0.10.7"
tokio = { version = "=1.54.1", features = ["full"] }
tracing = "=0.1.44"
tracing-subscriber = "=0.3.23"
