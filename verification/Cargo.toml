[package]
name = "glengine"
version = "0.1.0"
edition = "2021"
publish = false

[dependencies]
gl = "*"
egl = "*"
x11 = "*"
rand = "*"
array_ext = "*"
