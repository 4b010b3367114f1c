[package]
name = "tankgame"
version = "0.1.0"
edition = "2021"
publish = false

[dependencies]
bevy = { version = "=0.8.1", default-features = false, features = ["bevy_asset", "bevy_winit", "x11", "bevy_render", "bevy_core_pipeline", "bevy_sprite"] }
leafwing-input-manager = "0.7"
rand = "0.8"
