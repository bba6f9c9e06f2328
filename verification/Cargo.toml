[package]
name = "touchscreen_transform"
version = "0.1.0"
edition = "2021"
publish = false

[dependencies]
evdev = "0.11"
structopt = "0.3"
log = "0.4"
env_logger = "*"
