[package]
name = "ffplay_core"
version = "0.1.0"
edition = "2021"
publish = false

[dependencies]
error-stack = "*"
log = "*"
env_logger = "*"
ffmpeg-next = "*"
sdl2 = "*"
