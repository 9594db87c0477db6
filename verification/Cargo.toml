[package]
name = "gemo"
version = "0.1.0"
edition = "2021"
publish = false

[dependencies]
bytemuck = { version = "*", features = ["derive"] }
wgpu = "*"
winit = "*"
anyhow = "*"
env_logger = "*"
log = "*"
pollster = "*"
