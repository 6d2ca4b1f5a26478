[package]
name = "player"
version = "0.1.0"
edition = "2021"
publish = false

[dependencies]
rand = "0.9"
raylib = "*"
log = "0.4"
simple_logger = "*"
