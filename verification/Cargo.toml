[package]
name = "vis_core"
version = "0.1.0"
edition = "2021"
publish = false

[dependencies]
apodize = "*"
rustfft = "*"
log = "*"
env_logger = "*"
ezconf = "*"
pulse-simple = "*"
cpal = "*"
