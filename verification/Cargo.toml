[package]
name = "glquad"
version = "0.1.0"
edition = "2021"
publish = false

[dependencies]
image = "=0.25.10"
glium = "=0.34.0"
winit = "=0.29.15"
glutin = "=0.31.3"
glutin-winit = "=0.4.2"
raw-window-handle = "=0.5.2"
libloading = "=0.8.9"
