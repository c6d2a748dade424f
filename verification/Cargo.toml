[package]
name = "shoot"
version = "0.1.0"
edition = "2021"
publish = false

[dependencies]
rand = "0.8"
sdl2 = { version = "*", features = ["image"] }
sdl2-sys = "*"
