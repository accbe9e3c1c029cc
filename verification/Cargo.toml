[package]
name = "window_follow"
version = "0.1.0"
edition = "2021"
publish = false

[dependencies]
active-win-pos-rs = "*"
log = "*"
obs-wrapper = "*"
