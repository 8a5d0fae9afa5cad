[package]
name = "pixel_ops"
version = "0.1.0"
edition = "2021"
publish = false

[dependencies]
zune-core = "*"
zune-image = { version = "*", default-features = false }
