[package]
name = "amdgpu_device_libs"
version = "0.1.0"
edition = "2021"
publish = false

[dependencies]
rustflags = "=0.1.7"
