[package]
name = "arspaint"
version = "0.1.0"
edition = "2021"
publish = false

[dependencies]
image = { version = "0.25", default-features = false, features = ["png", "jpeg", "bmp"] }
anyhow = "1"
log = "0.4"
env_logger = "0.11"
egui = "0.29"
eframe = { version = "0.29", default-features = false, features = ["glow", "x11", "default_fonts"] }
rfd = { version = "0.15", default-features = false, features = ["xdg-portal", "async-std"] }
