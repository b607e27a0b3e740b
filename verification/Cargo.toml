[package]
name = "tvterm"
version = "0.1.0"
edition = "2021"
publish = false

[dependencies]
alacritty_terminal = "*"
egui = "*"
egui-wgpu = { version = "*", default-features = false }
egui-winit = { version = "*", default-features = false }
pollster = "*"
portable-pty = "*"
wgpu = { version = "*", default-features = false, features = ["vulkan", "gles", "wgsl"] }
winit = "*"
