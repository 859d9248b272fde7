[package]
name = "spectral_decay"
version = "0.1.0"
edition = "2021"
publish = false

[dependencies]
audio-visualizer = "*"
clap = { version = "*", features = ["derive"] }
cpal = "*"
spectrum-analyzer = "*"
