[package]
name = "rovr"
version = "0.1.0"
edition = "2021"
publish = false

[dependencies]
nostr = { version = "*", features = ["nip04"] }
nostr-sdk = "*"
tokio = { version = "*", features = ["rt-multi-thread", "macros", "time", "sync"] }
config = "*"
directories = "*"
env_logger = "*"
log = "*"
qrcode = "*"
reqwest = { version = "*", default-features = false, features = ["rustls-tls", "json"] }
serde_json = "*"
anyhow = "*"
