[package]
name = "lumen"
version = "0.1.0"
edition = "2021"
publish = false

[dependencies]
hecs = "*"
mint = "0.5"
wgpu = "0.12"
