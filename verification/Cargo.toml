[package]
name = "wisc"
version = "0.1.0"
edition = "2021"
publish = false

[dependencies]
bytemuck = "*"
futures-lite = "*"
slotmap = "*"
wgpu = "*"
