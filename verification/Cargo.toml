[package]
name = "cube_world"
version = "0.1.0"
edition = "2021"
publish = false

[dependencies]
rand = "*"
wgpu = "*"
winit = "*"
egui = "*"
egui-wgpu = "*"
egui-winit = { version = "*", default-features = false }
nalgebra = "*"
bytemuck = "*"
pollster = "*"
anyhow = "*"
env_logger = "*"
log = "*"
