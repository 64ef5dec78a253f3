[package]
name = "task_timer"
version = "0.1.0"
edition = "2021"
publish = false

[dependencies]
chrono = { version = "0.4", default-features = false, features = ["clock", "std"] }
arboard = { version = "3", default-features = false }
eframe = { version = "0.31", default-features = false, features = ["glow", "default_fonts", "x11"] }
widestring = "1"
winapi = { version = "0.3", features = ["winuser", "windef"] }
