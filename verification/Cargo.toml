[package]
name = "encode_bridge"
version = "0.1.0"
edition = "2021"
publish = false

[dependencies]
ffmpeg-next = "*"
jni = "*"
