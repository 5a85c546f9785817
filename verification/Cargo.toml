[package]
name = "sdfu"
version = "0.1.0"
edition = "2021"
publish = false

[dependencies]
glam = "*"
nalgebra = "*"
ultraviolet = "*"
vek = "*"
