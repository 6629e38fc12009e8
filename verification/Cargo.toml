[package]
name = "erosion"
version = "0.1.0"
edition = "2021"
publish = false

[dependencies]
vulkano = "=0.35.2"
vulkano-util = "=0.35.0"
winit = "=0.30.13"
