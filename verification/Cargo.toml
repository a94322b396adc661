[package]
name = "arcaders"
version = "0.1.0"
edition = "2021"
publish = false

[dependencies]
rand = "0.3"
sdl2 = "*"
sdl2_image = "*"
sdl2_ttf = "*"
