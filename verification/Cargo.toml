[package]
name = "screen_grabber"
version = "0.1.0"
edition = "2021"
publish = false

[dependencies]
global-hotkey = "0.2"
chrono = "0.4"
eframe = { version = "0.23", default-features = false, features = ["default_fonts", "glow", "x11"] }
image = { version = "0.24", default-features = false, features = ["png", "jpeg", "gif"] }
imageproc = { version = "0.23", default-features = false }
arboard = "3"
