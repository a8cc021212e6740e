[package]
name = "warp_runner"
version = "0.1.0"
edition = "2021"
publish = false

[dependencies]
anyhow = "1"
dirs = "*"
log = "0.4"
simple_logger = "*"
