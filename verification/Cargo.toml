[package]
name = "kas_wgpu"
version = "0.1.0"
edition = "2021"
publish = false

[dependencies]
wgpu = "0.4"
wgpu_glyph = "0.7"
winit = "0.20"
shaderc = "0.6"
