[package]
name = "pty_manager"
version = "0.1.0"
edition = "2021"
publish = false

[dependencies]
log = "0.4"
portable-pty = "0.8"
serde = { version = "1", features = ["derive"] }
serde_json = "1"
tauri = { version = "2", default-features = false }
tauri-plugin-log = "2"
uuid = { version = "1", features = ["v4"] }
