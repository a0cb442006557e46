[package]
name = "player_rules"
version = "0.1.0"
edition = "2021"
publish = false

[dependencies]
bevy = { version = "=0.11.3", default-features = false }
bevy_rapier3d = { version = "=0.22.0", default-features = false, features = ["dim3", "headless"] }

[dev-dependencies]
glam = "=0.24.2"
