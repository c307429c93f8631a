[package]
name = "snaek"
version = "0.1.0"
edition = "2021"
publish = false

[dependencies]
rand = "0.8"
winit = "0.30"
softbuffer = "0.4"
image = { version = "0.25", default-features = false, features = ["png"] }
owo-colors = "4"
