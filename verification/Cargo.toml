[package]
name = "window_shell"
version = "0.1.0"
edition = "2021"
publish = false

[dependencies]
tauri = { version = "=2.12.5", default-features = false, features = ["wry"] }
