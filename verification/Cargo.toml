[package]
name = "sabotage"
version = "0.1.0"
edition = "2021"
publish = false

[dependencies]
rand = "=0.8.8"
bevy = { version = "=0.19.1", default-features = false, features = ["std", "bevy_state", "bevy_ui", "bevy_sprite", "bevy_text", "bevy_asset", "bevy_color", "bevy_window"] }
bevy_rapier2d = { version = "<0.37", default-features = false, features = ["dim2"] }
