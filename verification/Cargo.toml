[package]
name = "bevy_ui_nav"
version = "0.1.0"
edition = "2021"
publish = false

[dependencies]
bevy = { version = "0.16", default-features = false, features = ["std", "bevy_ui", "bevy_window", "bevy_log"] }
