[package]
name = "watertender"
version = "0.1.0"
edition = "2021"
publish = false

[dependencies]
anyhow = "=1.0.104"
ctrlc = "=3.5.2"
erupt = "=0.23.0"
gpu-alloc = "=0.6.2"
gpu-alloc-erupt = "=0.9.1"
openxr = { version = "=0.22.0", default-features = false, features = ["loaded"] }
winit = { version = "=0.30.13", features = ["rwh_05"] }
