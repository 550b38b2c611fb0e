[package]
name = "termart"
version = "0.1.0"
edition = "2021"
publish = false

[dependencies]
anyhow = "1"
clap = { version = "4", features = ["derive"] }
crossterm = "0.27"
ffmpeg_cmdline_utils = "*"
file-format = "*"
image = { version = "0.24", default-features = false, features = ["gif", "jpeg", "png"] }
nokhwa = { version = "0.10", features = ["input-native"] }
reqwest = { version = "0.11", features = ["blocking"] }
tempfile = "3"
