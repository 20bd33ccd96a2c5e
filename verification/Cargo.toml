[package]
name = "vidcut"
version = "0.1.0"
edition = "2021"
publish = false

[dependencies]
ffmpeg-sidecar = "0.5"
serde = "1"
thiserror = "1"
