[package]
name = "vulkanr"
version = "0.1.0"
edition = "2021"
publish = false

[dependencies]
wgpu = "0.19"
glam = "*"
image = { version = "0.24", default-features = false, features = ["png"] }
pollster = "0.3"
bytemuck = "1"
