[package]
name = "cloak_share"
version = "0.1.0"
edition = "2021"
publish = false

[dependencies]
regex = "1"
image = { version = "0.25", default-features = false, features = ["png"] }
tesseract = "0.15"
wgpu = "24"
winit = "0.30"
pollster = "0.3"
