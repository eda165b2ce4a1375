[package]
name = "rust_lib"
version = "0.1.0"
edition = "2021"
publish = false

[dependencies]
cxx = "1.0.136"
