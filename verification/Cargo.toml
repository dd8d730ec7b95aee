[package]
name = "hello_sailor"
version = "0.1.0"
edition = "2021"
publish = false

[dependencies]
pollster = "0.2"
raw-window-handle = "0.5"
wgpu = "0.14"
x11 = { version = "2", features = ["xlib"] }
