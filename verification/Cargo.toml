[package]
name = "pmd_usb"
version = "0.1.0"
edition = "2021"
publish = false

[dependencies]
clap = "*"
csv = "*"
ctrlc = "*"
env_logger = "*"
log = "*"
serialport = { version = "*", default-features = false }
