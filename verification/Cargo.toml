[package]
name = "frame_pacing"
version = "0.1.0"
edition = "2021"
publish = false

[dependencies]
anyhow = "1"
ash = "0.38"
gpu-allocator = "0.28"
winit = "0.24"
