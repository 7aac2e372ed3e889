[package]
name = "wgsim"
version = "0.1.0"
edition = "2021"
publish = false

[dependencies]
wgpu = "=23.0.1"
wgpu-types = "=23.0.0"
winit = "=0.30.13"
pollster = "=0.3.0"
futures-intrusive = "=0.5.0"
indicatif = "=0.17.11"
gif = "=0.13.3"
