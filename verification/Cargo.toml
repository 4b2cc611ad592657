[package]
name = "custom_draw"
version = "0.1.0"
edition = "2021"
publish = false

[dependencies]
anyhow = "1"
bitflags = "2"
metal = "*"
naga = { version = "*", features = ["wgsl-in", "msl-out"] }
