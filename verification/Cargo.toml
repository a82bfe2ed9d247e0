[package]
name = "fractals"
version = "0.1.0"
edition = "2021"
publish = false

[dependencies]
anyhow = "1"
bytemuck = { version = "1", features = ["derive"] }
env_logger = "*"
glam = "*"
pollster = "*"
wgpu = { version = "27", features = ["spirv"] }
winit = "0.30"
