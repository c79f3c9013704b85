[package]
name = "image_viewer"
version = "0.1.0"
edition = "2021"
publish = false

[dependencies]
clap = { version = "4", features = ["derive"] }
gl = "0.14"
glutin = "0.29"
image = { version = "0.24", default-features = false, features = ["png", "jpeg", "bmp", "gif"] }
