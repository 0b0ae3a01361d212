[package]
name = "sky_hunter"
version = "0.1.0"
edition = "2021"
publish = false

[dependencies]
fastrand = "=2.5.0"
bevy = { version = "0.16", default-features = false, features = ["std", "bevy_asset", "bevy_color", "bevy_core_pipeline", "bevy_pbr", "bevy_render", "bevy_state", "bevy_window"] }
