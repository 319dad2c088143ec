[package]
name = "viewer_core"
version = "0.1.0"
edition = "2021"
publish = false

[dependencies]
gl = "=0.14.0"
glfw = { version = "=0.51.0", default-features = false, features = ["image"] }
image = "=0.24.9"
memoffset = "=0.9.1"
nalgebra-glm = "=0.18.0"
