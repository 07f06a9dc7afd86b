[package]
name = "tick_bridge"
version = "0.1.0"
edition = "2021"
publish = false

[dependencies]
spin = "*"
once_cell = "*"
