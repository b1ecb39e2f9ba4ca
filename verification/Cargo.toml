[package]
name = "recorder_tray"
version = "0.1.0"
edition = "2021"
publish = false

[dependencies]
tauri = { version = "=2.12.5", default-features = false, features = ["wry", "tray-icon"] }
tauri-plugin-fs = { version = "2", default-features = false }
tauri-plugin-store = { version = "2", default-features = false }
