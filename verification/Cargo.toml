[package]
name = "gpgpu"
version = "0.1.0"
edition = "2021"
publish = false

[dependencies]
wgpu = "0.13"
wgpu-core = "0.13"
wgpu-types = "0.13"
winit = "0.26"
ttf-parser = "0.15"
unicode-blocks = "*"
fontdue = "0.7"
image = "0.24"
gif = "0.11"
toml = "0.5"
serde = { version = "1", features = ["derive"] }
cgmath = "0.18"
stretch = "0.3"
bytemuck = { version = "1", features = ["derive"] }
prettytable-rs = "0.8"
colored = "2"
log = "0.4"
env_logger = "0.9"
structopt = "0.3"
pollster = "0.2"
