[package]
name = "rust_opengl"
version = "0.1.0"
edition = "2021"
publish = false

[dependencies]
gl = "*"
glfw = "*"
glam = "*"
freetype = "*"
stb_image = "*"
