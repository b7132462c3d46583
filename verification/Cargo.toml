[package]
name = "compute"
version = "0.1.0"
edition = "2021"
publish = false

[dependencies]
wgpu = "0.19"
bytemuck = { version = "1", features = ["derive"] }
tokio = { version = "1", features = ["rt", "macros"] }
env_logger = "*"
