[package]
name = "media_core"
version = "0.1.0"
edition = "2021"
publish = false

[dependencies]
rodio = "*"
serde = { version = "*", features = ["derive"] }
serde_json = "*"
