[package]
name = "avenir"
version = "0.1.0"
edition = "2021"
publish = false

[dependencies]
gfx-hal = "0.2"
gfx-backend-vulkan = "0.2"
winit = "0.19"
shaderc = "*"
log = "0.4"
env_logger = "*"
arrayvec = "0.4"
image = { version = "*", default-features = false }
nalgebra = "*"
genmesh = "*"
