[package]
name = "nes"
version = "0.1.0"
edition = "2021"
publish = false

[dependencies]
log = "0.4"
simple_logger = "*"
fastrand = "2"
winit = "0.30"
softbuffer = "0.4"
