[package]
name = "egui_title_bars"
version = "0.1.0"
edition = "2021"
publish = false

[dependencies]
egui = "=0.28.1"
env_logger = { version = "=0.11.11", default-features = false }
