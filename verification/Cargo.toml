[package]
name = "numeric_array"
version = "0.1.0"
edition = "2021"
publish = false

[dependencies]
num-traits = "*"
generic-array = "*"
typenum = "*"
