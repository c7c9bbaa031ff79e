[package]
name = "recoil_control"
version = "0.1.0"
edition = "2021"
publish = false

[dependencies]
eframe = { version = "0.22", default-features = false, features = ["glow", "default_fonts"] }
enigo = "0.1"
env_logger = { version = "0.10", default-features = false }
global-hotkey = "0.2"
