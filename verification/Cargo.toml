[package]
name = "ray_tracer"
version = "0.1.0"
edition = "2021"
publish = false

[dependencies]
wgpu = "=0.16.3"
winit = "=0.28.7"
egui = "=0.21.0"
egui_wgpu_backend = "=0.23.0"
egui_winit_platform = "=0.18.0"
image = "=0.24.9"
nalgebra-glm = "=0.18.0"
pollster = "=0.3.0"
env_logger = "=0.10.2"
thiserror = "=1.0.69"
