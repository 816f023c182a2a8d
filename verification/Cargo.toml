[package]
name = "schwarzschild_raytracer"
version = "0.1.0"
edition = "2021"
publish = false

[dependencies]
glam = "*"
bytemuck = { version = "*", features = ["derive"] }
fastrand = "*"
instant = "*"
