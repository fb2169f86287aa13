[package]
name = "rust_tracer"
version = "0.1.0"
edition = "2021"
publish = false

[dependencies]
glam = "*"
image = "*"
indicatif = "*"
itertools = "*"
rand = "*"
