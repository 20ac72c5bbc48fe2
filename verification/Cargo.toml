[package]
name = "cmake_bind_builder"
version = "0.1.0"
edition = "2021"
publish = false

[dependencies]
cc = "*"
cmake = "*"
