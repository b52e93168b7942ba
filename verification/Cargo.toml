[package]
name = "render_core"
version = "0.1.0"
edition = "2021"
publish = false

[dependencies]
wgpu = "24"
winit = "0.30"
cgmath = "0.18"
bytemuck = "1"
