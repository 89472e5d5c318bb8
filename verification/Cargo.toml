[package]
name = "iced_renderer"
version = "0.1.0"
edition = "2021"
publish = false

[dependencies]
iced_graphics = "*"
iced_tiny_skia = "*"
iced_wgpu = "*"
