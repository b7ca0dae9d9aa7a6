[package]
name = "frame_lifecycle"
version = "0.1.0"
edition = "2021"
publish = false

[dependencies]
ash = "0.38"
ash-window = "0.13"
winit = "0.30"
anyhow = "1"
