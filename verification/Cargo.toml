[package]
name = "image_watcher"
version = "0.1.0"
edition = "2021"
publish = false

[dependencies]
image = "*"
yaml-rust = "*"
read_input = "*"
