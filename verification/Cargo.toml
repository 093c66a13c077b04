[package]
name = "relax2d"
version = "0.1.0"
edition = "2021"
publish = false

[dependencies]
macroquad = "*"
