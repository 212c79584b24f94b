[package]
name = "embed_wgpu_lib"
version = "0.1.0"
edition = "2021"
publish = false

[dependencies]
bytemuck = "1"
env_logger = "0.11"
glam = "0.27"
log = "0.4"
lyon = "1"
nalgebra = "0.33"
rand = "0.8"
rapier2d = "0.22"
tokio = { version = "1", features = ["rt", "time", "macros"] }

[dev-dependencies]
