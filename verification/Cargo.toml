[package]
name = "sirin"
version = "0.1.0"
edition = "2021"
publish = false

[dependencies]
embedded-hal = "1.0"
libm = "0.2"
nalgebra = "*"
num-traits = "0.2"
