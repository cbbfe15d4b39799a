[package]
name = "terrain_raster"
version = "0.1.0"
edition = "2021"
publish = false

[dependencies]
bytemuck = "=1.25.2"
tiff = "=0.11.3"
