[package]
name = "click_engine"
version = "0.1.0"
edition = "2021"
publish = false

[dependencies]
anyhow = "*"
egui = "*"
egui-keybind = "*"
egui-notify = "*"
kittyaudio = "*"
log = "*"
parking_lot = "*"
serde = { version = "*", features = ["derive"] }
serde_json = "*"
windows = { version = "*", features = ["Win32_System_Console"] }
