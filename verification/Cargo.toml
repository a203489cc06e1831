[package]
name = "p2pong"
version = "0.1.0"
edition = "2021"
publish = false

[dependencies]
ggrs = "=0.13.0"
macroquad = "=0.3.26"
