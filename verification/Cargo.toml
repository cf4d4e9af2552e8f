[package]
name = "superhero_universe"
version = "0.1.0"
edition = "2021"
publish = false

[dependencies]
bevy_ecs = "*"
rusqlite = { version = "*", features = ["bundled"] }
serde = { version = "1", features = ["derive"] }
serde_json = "1"
