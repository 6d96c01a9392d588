[package]
name = "hero_api"
version = "0.1.0"
edition = "2021"
publish = false

[dependencies]
base64 = "0.13"
rocket = { version = "0.5", features = ["json"] }
serde = { version = "1.0", features = ["derive"] }
