[package]
name = "snake_game"
version = "0.1.0"
edition = "2021"
publish = false

[dependencies]
rand = "0.7"
config = "0.10"
serde = { version = "1.0", features = ["derive"] }
