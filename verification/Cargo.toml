[package]
name = "gear"
version = "0.1.0"
edition = "2021"
publish = false

[dependencies]
glfw = "*"
gl = "*"
nalgebra = "*"
log = "*"
log4rs = "*"
