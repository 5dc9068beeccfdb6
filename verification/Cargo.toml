[package]
name = "fine_grained"
version = "1.0.0"
edition = "2021"
publish = false

[dependencies]
time = "=0.1.45"
