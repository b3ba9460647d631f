[package]
name = "life_grid"
version = "0.1.0"
edition = "2021"
publish = false

[dependencies]
anyhow = "1"
bytemuck = { version = "1", features = ["derive"] }
env_logger = "0.11"
fastrand = "2"
pollster = "0.3"
thiserror = "1"
wgpu = "24"
winit = "0.30"
