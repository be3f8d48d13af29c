[package]
name = "gameboy"
version = "0.1.0"
edition = "2021"
publish = false

[dependencies]
sdl2 = "0.37"
log = "0.4"
colog = "1"
