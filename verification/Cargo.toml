[package]
name = "onekey_core"
version = "0.1.0"
edition = "2021"
publish = false

[dependencies]
aes-gcm = "=0.10.3"
argon2 = "=0.5.3"
base64 = "=0.22.1"
dirs = "=5.0.1"
rand = "0.8"
serde = { version = "1", features = ["derive"] }
serde_json = "1"
