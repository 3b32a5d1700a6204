[package]
name = "monet"
version = "0.1.0"
edition = "2021"
publish = false

[dependencies]
csv = "*"
eframe = { version = "*", default-features = false, features = ["glow", "x11"] }
egui = { version = "*", default-features = false }
rfd = { version = "*", default-features = false, features = ["xdg-portal", "tokio"] }
