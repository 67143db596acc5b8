[package]
name = "media_sync"
version = "0.1.0"
edition = "2021"
publish = false

[dependencies]
base64 = "=0.21.7"
rand = "=0.8.8"
sha2 = "=0.10.9"
tokio = { version = "=1.53.2", features = ["full"] }
reqwest = { version = "=0.11.27", default-features = false, features = ["json", "stream"] }
serde = { version = "=1.0.229", features = ["derive"] }
serde_json = "=1.0.151"
tempfile = "=3.27.0"
tokio-util = { version = "=0.7.19", features = ["io"] }
futures-util = "=0.3.34"
log = "=0.4.34"
