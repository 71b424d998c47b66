[package]
name = "core_widgets"
version = "0.1.0"
edition = "2021"
publish = false

[dependencies]
accesskit = "*"
bevy = { version = "*", default-features = false }
