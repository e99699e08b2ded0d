[package]
name = "hdr_oxide"
version = "0.1.0"
edition = "2021"
publish = false

[dependencies]
anyhow = "1"
clap = { version = "4", features = ["derive"] }
eframe = { version = "0.31", default-features = false, features = ["default_fonts", "glow", "x11"] }
env_logger = { version = "0.11", default-features = false, features = ["auto-color"] }
glob = "0.3"
image = { version = "0.25", default-features = false, features = ["jpeg", "png", "tiff", "rayon"] }
kamadak-exif = "0.6"
log = "0.4"
rayon = "1"
