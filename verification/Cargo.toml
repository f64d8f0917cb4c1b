[package]
name = "tinypaint"
version = "0.1.0"
edition = "2021"
publish = false

[dependencies]
wgpu = "25"
winit = "0.29"
bytemuck = { version = "1", features = ["derive"] }
log = "0.4"
