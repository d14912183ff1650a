[package]
name = "chip_8_emulator"
version = "0.1.0"
edition = "2021"
publish = false

[dependencies]
anyhow = "1"
hound = "3.5"
macroquad = { version = "0.4", features = ["audio"] }
rand = "0.9"
