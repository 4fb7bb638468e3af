[package]
name = "mediasort"
version = "0.1.0"
edition = "2021"
publish = false

[dependencies]
chrono = "*"
kamadak-exif = "*"
twox-hash = "*"
ffprobe = "*"
shellexpand = "*"
walkdir = "*"
