[package]
name = "exploration_core"
version = "0.1.0"
edition = "2021"
publish = false

[dependencies]
bevy = { version = "0.15", default-features = false, features = ["bevy_asset", "bevy_core_pipeline"] }
bevy_rapier3d = "0.28"
bevy_common_assets = { version = "0.12", features = ["ron"] }
serde = { version = "1", features = ["derive"] }
