[package]
name = "voxel_editor"
version = "0.1.0"
edition = "2021"
publish = false

[dependencies]
bytemuck = "*"
cgmath = "*"
wgpu = "*"
winit = "*"
