[package]
name = "hobby"
version = "0.1.0"
edition = "2021"
publish = false

[dependencies]
ash = "0.29"
gltf = "0.15"
log = "0.4"
failure = "0.1"
winit = "0.19"
vulkano = "0.13"
vulkano-win = "0.13"
nalgebra = "0.18"
nalgebra-glm = "0.4"
chrono = "0.4"
simplelog = "0.7"
memoffset = "0.5"
image = "0.22"
shaderc = "0.6"
