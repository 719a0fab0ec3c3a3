[package]
name = "assets_rocket_fairing"
version = "0.1.0"
edition = "2021"
publish = false

[dependencies]
normpath = "1"
rocket = "0.5"
