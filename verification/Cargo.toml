[package]
name = "ceron"
version = "0.1.0"
edition = "2021"
publish = false

[dependencies]
bytemuck = { version = "1", features = ["derive"] }
glam = "*"
pollster = "*"
wgpu = { version = "24", default-features = false, features = ["wgsl"] }
winit = "0.30"
