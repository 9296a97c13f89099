[package]
name = "egui_style"
version = "0.1.0"
edition = "2021"
publish = false

[dependencies]
ecolor = "*"
emath = "*"
serde = { version = "1", features = ["derive"] }
serde_json = "1"
