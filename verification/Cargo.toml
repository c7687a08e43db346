[package]
name = "matting"
version = "0.1.0"
edition = "2021"
publish = false

[dependencies]
image = "=0.25.10"
ndarray = "0.16"
ort = "=2.0.0-rc.13"
