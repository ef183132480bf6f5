[package]
name = "embercore_client_lib"
version = "0.1.0"
edition = "2021"
publish = false

[dependencies]
anyhow = "=1.0.104"
log = "=0.4.34"
nalgebra-glm = "=0.21.0"
once_cell = "=1.21.4"
png = "=0.16.8"
serde = "=1.0.229"
serde_json = "=1.0.154"
thiserror = "=1.0.69"
vulkano = "=0.20.0"
vulkano-shaders = "=0.20.0"
vulkano-win = "=0.20.0"
winit = "=0.24.0"
