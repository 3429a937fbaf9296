[package]
name = "shape_viewer"
version = "0.1.0"
edition = "2021"
publish = false

[dependencies]
bytemuck = "1"
clap = { version = "4", features = ["derive"] }
env_logger = "0.11"
pollster = "0.4"
wgpu = "26"
winit = "0.30"
