[package]
name = "linkplan"
version = "0.1.0"
edition = "2021"
publish = false

[dependencies]
cmake = "*"
cxx-build = "*"
miniserde = "*"
prost-build = "*"
