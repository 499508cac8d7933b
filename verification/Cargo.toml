[package]
name = "sf2deluge"
version = "0.1.0"
edition = "2021"
publish = false

[dependencies]
binread = "*"
riff = "1"
clap = "2"
env_logger = "*"
log = "*"
