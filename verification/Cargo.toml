[package]
name = "vk_engine"
version = "0.1.0"
edition = "2021"
publish = false

[dependencies]
ash = "0.37"
ash-window = "0.12"
raw-window-handle = "0.5"
winit = "0.28"
glam = "0.24"
image = { version = "0.24", default-features = false, features = ["jpeg", "png"] }
cstr = "0.2"
shaderc = "0.8"
