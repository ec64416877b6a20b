[package]
name = "skip_stone"
version = "0.1.0"
edition = "2021"
publish = false

[dependencies]
godot = "*"
rand = "0.8"
