[package]
name = "radiance_cascades"
version = "0.1.0"
edition = "2021"
publish = false

[dependencies]
glam = "*"
thiserror = "1"
vulkano = "0.34"
winit = { version = "0.30", default-features = false, features = ["rwh_05", "x11"] }
