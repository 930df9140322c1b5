[package]
name = "cube2rust"
version = "0.1.0"
edition = "2021"
publish = false

[dependencies]
human-sort = "*"
