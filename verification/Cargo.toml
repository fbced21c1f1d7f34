[package]
name = "custom_shader"
version = "0.1.0"
edition = "2021"
publish = false

[dependencies]
amethyst = { version = "=0.15.3", default-features = false, features = ["renderer", "empty"] }
amethyst_error = "=0.15.3"
amethyst_rendy = { version = "=0.15.3", features = ["empty"] }
derivative = "=1.0.4"
failure = "=0.1.8"
glsl-layout = "=0.3.2"
lazy_static = "=1.5.1"
