[package]
name = "twilight_wgpu_backend"
version = "0.1.0"
edition = "2021"
publish = false

[dependencies]
bytemuck = { version = "=1.25.2", features = ["derive"] }
pollster = "=1.0.1"
wgpu = { version = "=25.0.2", default-features = false, features = ["noop", "wgsl"] }
