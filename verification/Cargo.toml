[package]
name = "fixframe"
version = "0.1.0"
edition = "2021"
rust-version = "1.95"
publish = false

[dependencies]
fixed = "=1.31.0"
bevy = { version = "0.18", default-features = false }
