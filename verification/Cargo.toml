[package]
name = "neon_snake"
version = "0.1.0"
edition = "2021"
publish = false

[dependencies]
rand = "*"
serde = { version = "*", features = ["derive"] }
serde_json = "*"
toml = "*"
sdl2 = { version = "*", features = ["ttf", "mixer"] }
once_cell = "*"
