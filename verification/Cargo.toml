[package]
name = "bird_game"
version = "0.1.0"
edition = "2021"
publish = false

[dependencies]
rand = "0.8"
bevy = { version = "0.9", default-features = false, features = ["bevy_asset", "bevy_winit", "bevy_core_pipeline", "bevy_render", "bevy_sprite", "bevy_text", "bevy_ui", "png", "x11"] }
bevy_rapier2d = "0.19"
iyes_loopless = "0.9"
bevy-inspector-egui = "0.17"
