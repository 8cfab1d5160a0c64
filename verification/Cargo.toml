[package]
name = "window_geometry"
version = "0.1.0"
edition = "2021"
publish = false

[dependencies]
log = "0.4"
serde_json = "1"
tauri = { version = "2", default-features = false }
tauri-plugin-fs = "2"
tauri-plugin-store = "2"
