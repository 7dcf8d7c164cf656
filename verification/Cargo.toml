[package]
name = "rostig"
version = "0.1.0"
edition = "2021"
publish = false

[dependencies]
wgpu = "25"
winit = "0.29"
log = "*"
env_logger = "*"
pollster = "*"
