[package]
name = "doorpasses"
version = "1.0.0"
edition = "2021"
publish = false

[dependencies]
base64 = "=0.22.1"
hex = "0.4"
hmac = "0.12"
reqwest = { version = "=0.12.28", default-features = false, features = ["json"] }
serde = { version = "=1.0.229", features = ["derive"] }
serde_json = "=1.0.154"
sha2 = "0.10"
thiserror = "=1.0.69"
