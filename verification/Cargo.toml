[package]
name = "rbc"
version = "0.1.0"
edition = "2021"
publish = false

[dependencies]
eframe = { version = "=0.29.1", default-features = false, features = ["default_fonts", "glow"] }
dirs = "=5.0.1"
image = { version = "=0.25.10", default-features = false, features = ["png", "jpeg"] }
rfd = { version = "=0.15.4", default-features = false, features = ["xdg-portal", "tokio"] }
ureq = { version = "=2.12.1", default-features = false }
