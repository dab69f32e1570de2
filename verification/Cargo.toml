[package]
name = "jandering_engine"
version = "0.1.0"
edition = "2021"
publish = false

[dependencies]
bytemuck = { version = "1", features = ["derive"] }
image = { version = "0.24", default-features = false, features = ["png"] }
glam = "0.24"
cgmath = "0.18"
winit = "0.30"
wgpu = "0.19"
pollster = "0.3"
raw-window-handle = "0.6"
