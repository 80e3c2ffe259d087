[package]
name = "upscaler"
version = "0.1.0"
edition = "2021"
publish = false

[dependencies]
image = { version = "0.25", default-features = false, features = ["png", "jpeg"] }
rand = "0.8"
thiserror = "2"
ratatui = "0.29"
crossterm = "0.28"
