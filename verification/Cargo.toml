[package]
name = "no_boilerplate_vite"
version = "0.1.0"
edition = "2021"
publish = false

[dependencies]
colored = "*"
