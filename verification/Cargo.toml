[package]
name = "dpi_scene"
version = "0.1.0"
edition = "2021"
publish = false

[dependencies]
gl = "*"
glutin = "0.29"
