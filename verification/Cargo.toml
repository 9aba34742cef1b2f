[package]
name = "minimg"
version = "0.1.0"
edition = "2021"
publish = false

[dependencies]
anyhow = "1"
env_logger = "0.10"
image = "0.24"
log = "0.4"
pollster = "0.2"
show-image = { version = "0.13", features = ["image"] }
threadpool = "1"
wgpu = "0.13"
winit = "0.27"
