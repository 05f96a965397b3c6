[package]
name = "lumina_render"
version = "0.1.0"
edition = "2021"
publish = false

[dependencies]
ash = "0.37"
num = "0.4"
glam = "*"
sdl2 = "*"
