[package]
name = "render_core"
version = "0.1.0"
edition = "2021"
publish = false

[dependencies]
wgpu = "*"
winit = "0.30"
pollster = "*"
log = "*"
env_logger = "*"
thiserror = "*"
