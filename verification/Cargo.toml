[package]
name = "step_mesh"
version = "0.1.0"
edition = "2021"
publish = false

[dependencies]
cdt = "=0.1.0"
nalgebra = "=0.35.0"
nalgebra-glm = "=0.21.0"
