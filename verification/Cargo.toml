[package]
name = "rusty_bird"
version = "0.1.0"
edition = "2021"
publish = false

[dependencies]
rand = "0.4"
piston = "*"
piston2d-graphics = "*"
piston2d-opengl_graphics = "*"
pistoncore-glutin_window = "*"
