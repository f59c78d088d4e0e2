[package]
name = "dungeon_levels"
version = "0.1.0"
edition = "2021"
publish = false

[dependencies]
ron = "*"
serde = { version = "*", features = ["derive"] }
