[package]
name = "learn_glium"
version = "0.1.0"
edition = "2021"
publish = false

[dependencies]
glium = "0.31"
image = { version = "0.24", default-features = false, features = ["png"] }
ndarray = "0.15"
