[package]
name = "rtdgi"
version = "0.1.0"
edition = "2021"
publish = false

[dependencies]
blue-noise-sampler = "=0.1.0"
