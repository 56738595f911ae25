[package]
name = "chip8"
version = "0.1.0"
edition = "2021"
publish = false

[dependencies]
macroquad = { version = "=0.4.16", features = ["audio"] }
quad-rand = "=0.2.3"
hound = "=3.5.1"
rfd = { version = "=0.17.2", default-features = false, features = ["xdg-portal"] }
spin_sleep = "=1.3.3"
strum = { version = "=0.28.0", features = ["derive"] }
