[package]
name = "dorarobot"
version = "0.1.0"
edition = "2021"
publish = false

[dependencies]
anyhow = "1"
chrono = "0.4"
serde = { version = "1", features = ["derive"] }
serde_json = "1"
postcard = { version = "1", features = ["use-std"] }
toml = "0.8"
tokio = { version = "1", features = ["rt", "rt-multi-thread", "sync", "time", "net", "macros"] }
tokio-stream = { version = "0.1", features = ["sync"] }
axum = "0.7"
futures = "0.3"
log = "0.4"
usb-resolver = "*"
feetech-servo-sdk = "*"
