[package]
name = "telajax"
version = "0.1.0"
edition = "2021"
publish = false

[dependencies]
failure = "0.1"
lazy_static = "1"
libc = "0.2"
log = "0.4"
serde_json = "1"
xdg = "2"
