[package]
name = "gpu_context"
version = "0.1.0"
edition = "2021"
publish = false

[dependencies]
anyhow = "1"
log = "0.4"
pollster = "0.4"
wgpu = { version = "29", features = ["noop"] }
