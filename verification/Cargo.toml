[package]
name = "triangle_scene"
version = "0.1.0"
edition = "2021"
publish = false

[dependencies]
anyhow = "=1.0.104"
bytemuck = { version = "=1.25.2", features = ["derive"] }
env_logger = "=0.11.11"
glam = "0.30"
log = "=0.4.35"
pollster = "=1.0.1"
wgpu = "=30.0.1"
winit = "=0.30.13"
