[package]
name = "shader_playground"
version = "0.1.0"
edition = "2021"
publish = false

[dependencies]
bytemuck = "1"
pollster = "0.4"
tracing = "0.1"
tracing-subscriber = { version = "0.3", features = ["env-filter"] }
wgpu = "28"
winit = "0.30"
