[package]
name = "render_host"
version = "0.1.0"
edition = "2021"
publish = false

[dependencies]
bytemuck = "=1.25.2"
futures = "=0.3.34"
image = { version = "=0.23.14", default-features = false, features = ["jpeg", "png"] }
log = "=0.4.34"
wgpu = "=0.7.1"
winit = "=0.24.0"
