[package]
name = "wgpu_native"
version = "0.1.0"
edition = "2021"
publish = false

[dependencies]
gfx-hal = "0.9"
gfx-backend-empty = "0.9"
raw-window-handle = "0.3"
winit = "=0.18.1"
log = "=0.4.34"
env_logger = "=0.6.2"
glsl-to-spirv = "=0.1.7"
