[package]
name = "rnet_core"
version = "0.1.0"
edition = "2021"
publish = false

[dependencies]
cookie = "=0.18.2"
encoding_rs = "*"
mime = "=0.3.17"
serde = { version = "=1.0.229", features = ["derive"] }
serde_json = "=1.0.151"

[dev-dependencies]
http = "=1.5.0"
serde_urlencoded = "=0.7.1"
