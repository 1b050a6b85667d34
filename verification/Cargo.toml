[package]
name = "glox"
version = "0.1.0"
edition = "2021"
publish = false

[dependencies]
glam = "=0.30.10"
glow = "=0.18.0"
ply-rs = "=0.1.3"
linked-hash-map = "=0.5.6"
