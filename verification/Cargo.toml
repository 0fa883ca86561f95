[package]
name = "mediad"
version = "0.1.0"
edition = "2021"
publish = false

[dependencies]
epoll = "4"
evdev = "0.10"
human-panic = "1"
mpris = "1"
pulsectl-rs = "0.3"
