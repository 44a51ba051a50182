[package]
name = "particle_render"
version = "0.1.0"
edition = "2021"
publish = false

[dependencies]
bytemuck = { version = "=1.25.2", features = ["derive"] }
env_logger = { version = "=0.10.2", default-features = false }
glam = "=0.23.0"
imgui = "=0.10.0"
imgui-wgpu = "=0.22.0"
imgui-winit-support = "=0.10.0"
log = "=0.4.34"
rand = "=0.8.8"
wgpu = { version = "=0.15.1", default-features = false, features = ["wgsl"] }
winit = { version = "=0.27.5", default-features = false, features = ["x11"] }
