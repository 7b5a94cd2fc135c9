[package]
name = "onmf"
version = "0.1.0"
edition = "2021"
publish = false

[dependencies]
ndarray = "*"
nalgebra = "*"
rand = "*"
num = "*"
rblas = "*"
clap = { version = "*", features = ["cargo"] }
image = { version = "*", default-features = false, features = ["png"] }
quick-error = "*"
