[package]
name = "fake_dpi"
version = "0.1.0"
edition = "2021"
publish = false

[dependencies]
pistoncore-input = "=0.28.1"
pistoncore-window = "=0.43.0"
