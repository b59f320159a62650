[package]
name = "sprite_render"
version = "0.1.0"
edition = "2021"
publish = false

[dependencies]
anyhow = "=1.0.104"
bytemuck = { version = "=1.25.2", features = ["derive"] }
image = { version = "=0.24.9", default-features = false, features = ["png", "bmp", "gif"] }
pollster = "=0.3.0"
wgpu = "=0.15.1"
winit = { version = "=0.28.7", default-features = false, features = ["x11"] }
