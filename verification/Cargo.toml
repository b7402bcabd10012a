[package]
name = "nago_telegram"
version = "0.1.0"
edition = "2021"
publish = false

[dependencies]
nago-http = "*"
nagoya = "*"
serde = { version = "1", features = ["derive"] }
serde_json = "1"
