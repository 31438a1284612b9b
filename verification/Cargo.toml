[package]
name = "simd_vector"
version = "0.1.0"
edition = "2021"
publish = false

[dependencies]
packed_simd = "*"
num-traits = "0.2"
