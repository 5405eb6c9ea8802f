[package]
name = "cloak_share"
version = "0.1.0"
edition = "2021"
publish = false

[dependencies]
core-foundation = "0.10"
core-video-sys = "0.1"
pollster = "0.4"
screencapturekit = "0.3"
wgpu = "26"
winit = "0.30"
