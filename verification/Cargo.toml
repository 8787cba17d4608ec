[package]
name = "ucanduit"
version = "0.1.0"
edition = "2021"
publish = false

[dependencies]
log = "=0.4.34"
serde = { version = "=1.0.229", features = ["derive"] }
serde_json = "=1.0.154"
tauri = { version = "2", default-features = false, features = ["wry"] }
tauri-plugin-fs = { version = "2", default-features = false }
tauri-plugin-log = { version = "2", default-features = false }
