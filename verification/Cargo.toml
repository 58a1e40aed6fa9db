[package]
name = "only_connect"
version = "0.1.0"
edition = "2021"
publish = false

[dependencies]
lazy_static = "1"
rand = "0.8"
regex = "1"
sdl2 = { version = "*", features = ["ttf", "image", "gfx"] }
winapi = { version = "0.3", features = ["winuser"] }
