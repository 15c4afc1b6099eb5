[package]
name = "rusty_snake"
version = "0.1.0"
edition = "2021"
publish = false

[dependencies]
cgmath = "=0.18.0"
gl = "=0.14.0"
glfw = "=0.51.0"
image = { version = "=0.24.9", default-features = false, features = ["png"] }
