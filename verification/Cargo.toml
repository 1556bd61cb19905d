[package]
name = "clipboard_watcher"
version = "0.1.0"
edition = "2021"
publish = false

[dependencies]
mouse_position = "*"
serde = { version = "*", features = ["derive"] }
