[package]
name = "flappy_core"
version = "0.1.0"
edition = "2021"
publish = false

[dependencies]
quad-rand = "=0.2.3"
bevy = { version = "=0.13.2", default-features = false }
