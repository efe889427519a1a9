[package]
name = "vulkan_vibe"
version = "0.1.0"
edition = "2021"
publish = false

[dependencies]
ash = "0.38"
winit = "0.30"
glam = "*"
bytemuck = "*"
