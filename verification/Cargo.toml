[package]
name = "ldcore"
version = "0.1.0"
edition = "2021"
publish = false

[dependencies]
pistoncore-event_loop = "*"
piston2d-graphics = "*"
pistoncore-input = "*"
piston2d-opengl_graphics = "*"
pistoncore-sdl2_window = "*"
pistoncore-window = "*"
