[package]
name = "ketch"
version = "0.1.0"
edition = "2021"
publish = false

[dependencies]
vulkano = "0.11"
vulkano-win = "0.11"
winit = "0.18"
nalgebra-glm = "0.2"
image = "0.21"
log = "0.4"
fps_counter = "1.0"
env_logger = "0.6"
structopt = "0.2"
conrod_core = "0.63"
conrod_vulkano = "0.63"
conrod_winit = "0.63"
