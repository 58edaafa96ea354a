[package]
name = "madlab"
version = "0.1.0"
edition = "2021"
publish = false

[dependencies]
macroquad = { version = "=0.3.26", default-features = false }
rapier2d = { version = "=0.18.0", features = ["debug-render"] }
nalgebra = "=0.32.6"
egui-macroquad = { version = "=0.15.0", default-features = false }
image = { version = "=0.24.9", default-features = false, features = ["png"] }
