[package]
name = "swappy"
version = "0.1.0"
edition = "2021"
publish = false

[dependencies]
image = "*"
clap = { version = "*", features = ["derive"] }
eframe = { version = "*", default-features = false, features = ["glow", "x11", "default_fonts"] }
