[package]
name = "erosion_terrain"
version = "0.1.0"
edition = "2021"
publish = false

[dependencies]
wgpu = { version = "0.19", default-features = false, features = ["wgsl"] }
cgmath = "0.18"
noise = "0.8"
rand = "0.8"
bytemuck = { version = "1", features = ["derive"] }
pollster = "0.3"
env_logger = "0.10"
