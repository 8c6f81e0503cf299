[package]
name = "render_harness"
version = "0.1.0"
edition = "2021"
publish = false

[dependencies]
bytemuck = { version = "1", features = ["derive"] }
glam = "0.27"
image = { version = "0.25", default-features = false, features = ["jpeg", "png"] }
pollster = "0.3"
project-root = "0.2"
tobj = "4.0"
wgpu = { version = "0.20", default-features = false, features = ["wgsl"] }
