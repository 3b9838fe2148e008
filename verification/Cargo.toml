[package]
name = "mini_shrewd"
version = "0.1.0"
edition = "2021"
publish = false

[dependencies]
chrono = { version = "0.4", default-features = false, features = ["std"] }
bevy = { version = "0.8", default-features = false, features = ["bevy_winit", "x11", "bevy_render", "bevy_core_pipeline", "bevy_sprite", "bevy_asset", "png"] }
bevy_egui = { version = "0.16", default-features = false }
