[package]
name = "selection_monitor"
version = "0.1.0"
edition = "2021"
publish = false

[dependencies]
accessibility-sys = "*"
core-foundation = "*"
serde = { version = "1", features = ["derive"] }
tauri = { version = "2", default-features = false, features = ["tray-icon"] }
tauri-plugin-global-shortcut = "2"
tokio = { version = "1", features = ["rt", "time"] }
