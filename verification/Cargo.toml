[package]
name = "vuis"
version = "0.1.0"
edition = "2021"
publish = false

[dependencies]
base64 = "0.22"
flate2 = "1"
image = { version = "0.25", default-features = false, features = ["png", "jpeg"] }
ttf-parser = "0.25"
serde = { version = "1", features = ["derive"] }
serde_json = "1"
