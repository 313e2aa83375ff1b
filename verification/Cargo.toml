[package]
name = "photag"
version = "0.1.0"
edition = "2021"
publish = false

[dependencies]
anyhow = "1"
chrono = { version = "0.4", features = ["serde"] }
clap = { version = "3", features = ["derive"] }
eframe = "0.19"
egui_extras = { version = "0.19", features = ["image"] }
image = { version = "0.24", default-features = false, features = ["jpeg"] }
kamadak-exif = "0.5"
mozjpeg = "0.9"
serde = { version = "1", features = ["derive"] }
serde_json = "1"
