[package]
name = "game_config"
version = "0.1.0"
edition = "2021"
publish = false

[dependencies]
serde = { version = "=1.0.229", features = ["derive"] }
serde_json = "=1.0.151"
bson = "=3.1.0"
bevy_color = { version = "=0.19.1", features = ["serialize"] }
bevy_input = { version = "=0.19.1", features = ["serialize", "keyboard"] }
bevy_math = { version = "=0.19.1", features = ["serialize"] }
bevy_transform = { version = "=0.19.1", features = ["serialize"] }
