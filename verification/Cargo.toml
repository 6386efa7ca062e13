[package]
name = "path_tracer"
version = "0.1.0"
edition = "2021"
publish = false

[dependencies]
anyhow = "1"
pollster = "0.4"
wgpu = "*"
winit = "0.30"
