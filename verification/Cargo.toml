[package]
name = "frame_recorder"
version = "0.1.0"
edition = "2021"
publish = false

[dependencies]
ffmpeg-sidecar = "*"
