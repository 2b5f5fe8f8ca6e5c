[package]
name = "gravel_rs"
version = "0.1.0"
edition = "2021"
publish = false

[dependencies]
heapless = "0.8"
qrcode = { version = "*", default-features = false }
serde = { version = "1", features = ["derive"] }
serde_json = "1"
