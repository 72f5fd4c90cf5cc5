[package]
name = "paypal_rust"
version = "0.1.0"
edition = "2021"
publish = false

[dependencies]
base64 = "=0.22.1"
http-types = { version = "=2.12.0", default-features = false }
reqwest = { version = "=0.12.28", features = ["json"] }
reqwest-middleware = "=0.4.2"
reqwest-retry = "=0.7.0"
serde = { version = "=1.0.229", features = ["derive"] }
serde_json = { version = "=1.0.154", features = ["preserve_order"] }
serde_qs = "=0.13.0"
serde_urlencoded = "=0.7.1"
serde_with = "=3.24.0"
tokio = { version = "=1.54.1", features = ["sync"] }
