[package]
name = "brain-engine-core"
version = "0.1.0"
edition = "2021"
publish = false

[dependencies]
rand = "0.9"
bevy = { version = "0.16", default-features = false, features = ["std", "bevy_asset", "bevy_core_pipeline", "bevy_render", "bevy_sprite", "bevy_window", "bevy_winit", "png", "x11"] }
anyhow = "1"
serde = { version = "1", features = ["derive"] }
serde_json = "1"
