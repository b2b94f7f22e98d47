[package]
name = "keyboard_owner"
version = "0.1.0"
edition = "2021"
publish = false

[dependencies]
sha2 = "=0.10.9"
hmac = "0.12"
crossbeam-channel = "=0.5.17"
serde = { version = "=1.0.229", features = ["derive"] }
serde_json = "=1.0.154"
