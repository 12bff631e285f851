[package]
name = "chatstream"
version = "0.1.0"
edition = "2021"
publish = false

[dependencies]
serde = { version = "*", features = ["derive"] }
serde_json = "*"
chrono = "*"
aes-gcm = "*"
sha2 = "*"
base64 = "*"
