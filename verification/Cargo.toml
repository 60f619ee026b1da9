[package]
name = "tandem"
version = "0.1.0"
edition = "2021"
publish = false

[dependencies]
bytemuck = { version = "1", features = ["derive"] }
futures = "0.3"
rand = "0.7"
wgpu = "0.6"
winit = "0.23"
