[package]
name = "compute_sims"
version = "0.1.0"
edition = "2021"
publish = false

[dependencies]
glow = "=0.10.0"
glutin = "=0.28.0"
imgui = "=0.8.2"
imgui-glow-renderer = "=0.8.3"
imgui-winit-support = { version = "=0.8.2", default-features = false, features = ["winit-26"] }
rand = "=0.8.8"
