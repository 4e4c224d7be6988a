[package]
name = "prefix_dispatch"
version = "0.1.0"
edition = "2021"
publish = false

[dependencies]
regex = "1"
