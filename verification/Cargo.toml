[package]
name = "packet_decode"
version = "0.1.0"
edition = "2021"
publish = false

[dependencies]
pnet = "=0.35.0"
chrono = "=0.4.45"
eframe = { version = "=0.37.0", default-features = false, features = ["glow", "default_fonts", "x11"] }
egui = "=0.37.0"
egui_tiles = "=0.18.0"
rfd = { version = "=0.17.2", default-features = false, features = ["xdg-portal"] }
