[package]
name = "rusty_render"
version = "0.1.0"
edition = "2021"
publish = false

[dependencies]
cgmath = "*"
glium = "*"
image = { version = "*", default-features = false, features = ["jpeg", "png"] }
time = "0.1"
