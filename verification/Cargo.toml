[package]
name = "nes_rs"
version = "0.1.0"
edition = "2021"

[dependencies]
sdl2 = "=0.35.2"
rand = "=0.8.8"
tui = "=0.19.0"
crossterm = "=0.25.0"

[dev-dependencies]
nom = "7"
