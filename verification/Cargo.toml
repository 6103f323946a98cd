[package]
name = "tower_defense"
version = "0.1.0"
edition = "2021"
publish = false

[dependencies]
bevy = { version = "=0.8.1", default-features = false, features = ["bevy_asset", "bevy_scene", "bevy_winit", "render", "x11", "png"] }
bevy-inspector-egui = "0.13"
