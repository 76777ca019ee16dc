[package]
name = "yuxa"
version = "0.1.0"
edition = "2021"
publish = false

[dependencies]
winit = "=0.19.5"
smithay-client-toolkit = "=0.4.6"
x11-dl = "=2.21.0"
libc = "=0.2.190"
