[package]
name = "ball_game"
version = "0.1.0"
edition = "2021"
publish = false

[dependencies]
bevy = { version = "=0.10.1", default-features = false, features = ["bevy_asset", "bevy_core_pipeline", "bevy_render", "bevy_sprite"] }
rand = "=0.8.8"
