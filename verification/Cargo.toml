[package]
name = "meshtext"
version = "0.1.0"
edition = "2021"
publish = false

[dependencies]
ghx_constrained_delaunay = "*"
glam = "*"
ttf-parser = "*"
owned_ttf_parser = "*"
