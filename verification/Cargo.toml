[package]
name = "gpu_resources"
version = "0.1.0"
edition = "2021"
publish = false

[dependencies]
ash = "=0.38.0"
gpu-alloc = "=0.6.2"
gpu-alloc-ash = "=0.7.1"
hashbrown = "=0.17.1"
glam = "=0.34.1"
image = { version = "0.25", default-features = false, features = ["png", "jpeg"] }
log = "=0.4.34"
