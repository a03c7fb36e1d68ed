[package]
name = "wgpu_native"
version = "0.1.0"
edition = "2021"
publish = false

[dependencies]
wgpu-types = "=30.0.1"
wgpu-core = { version = "=30.0.1", features = ["wgsl", "spirv", "glsl"] }
naga = { version = "=30.0.1", features = ["wgsl-in", "spv-in", "glsl-in"] }
log = "=0.4.35"
thiserror = "=2.0.21"
lazy_static = "=1.5.1"
parking_lot = "=0.13.0"
