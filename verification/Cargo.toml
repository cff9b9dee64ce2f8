[package]
name = "vetovoima"
version = "0.1.0"
edition = "2021"
publish = false

[dependencies]
bevy = { version = "0.10", default-features = false, features = ["bevy_asset", "bevy_core_pipeline", "bevy_render", "bevy_sprite", "bevy_text", "bevy_ui", "bevy_winit", "x11"] }
bevy_prototype_lyon = "0.8"
bevy_rapier2d = "0.21"
rand = "0.8"
rand_distr = "0.4"
