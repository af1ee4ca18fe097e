[package]
name = "game_of_rust"
version = "0.1.0"
edition = "2021"
publish = false

[dependencies]
sdl2 = "*"
once_cell = "*"
