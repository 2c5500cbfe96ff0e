[package]
name = "tank_game"
version = "0.1.0"
edition = "2021"
publish = false

[dependencies]
lazy_static = "1"
rand = "0.8"
rand_distr = "0.4"
sdl2 = { version = "0.36", features = ["gfx", "image", "ttf"] }
serde = { version = "1", features = ["derive"] }
serde_json = "1"
