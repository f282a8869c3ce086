[package]
name = "quiche_build"
version = "0.1.0"
edition = "2021"
publish = false

[dependencies]
cc = "*"
cmake = "*"
pkg-config = "*"
cdylib-link-lines = "*"
