[package]
name = "spatial_ref"
version = "0.1.0"
edition = "2021"
publish = false

[dependencies]
gdal-sys = "*"
libc = "0.2"
