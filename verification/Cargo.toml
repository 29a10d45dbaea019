[package]
name = "rheel"
version = "0.1.0"
edition = "2021"
publish = false

[dependencies]
rand = { version = "=0.10.3", features = ["chacha"] }
serde = { version = "=1.0.229", features = ["derive"] }
toml = "=1.1.6"
eframe = { version = "=0.36.2", default-features = false, features = ["glow", "x11"] }
rodio = { version = "=0.22.2", default-features = false, features = ["playback"] }
