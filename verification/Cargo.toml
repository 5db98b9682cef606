[package]
name = "window_control"
version = "0.1.0"
edition = "2021"
publish = false

[dependencies]
serde_json = "=1.0.154"
tauri = { version = "=2.12.5", default-features = false, features = ["wry"] }
windows = { version = "=0.62.2", features = ["Win32_Foundation", "Win32_UI_WindowsAndMessaging"] }
