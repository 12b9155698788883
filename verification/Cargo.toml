[package]
name = "epub_backend"
version = "0.1.0"
edition = "2021"
publish = false

[dependencies]
base64 = "0.22"
epub = "2"
serde = { version = "1", features = ["derive"] }
