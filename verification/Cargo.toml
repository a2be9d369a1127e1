[package]
name = "http_relay"
version = "0.1.0"
edition = "2021"
publish = false

[dependencies]
reqwest = { version = "0.12", default-features = false }
tauri = { version = "2", default-features = false }
