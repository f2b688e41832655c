[package]
name = "cosmic-touch-keyboard"
version = "0.1.0"
edition = "2021"
publish = false

[dependencies]
font8x8 = "=0.3.1"
fontdue = "=0.9.5"
smithay-client-toolkit = { version = "=0.19.2", default-features = false }
wayland-client = "=0.31.15"
wayland-protocols-misc = { version = "=0.3.12", features = ["client"] }
xkbcommon = "=0.8.0"
tempfile = "=3.27.0"
anyhow = "=1.0.104"
tracing = "=0.1.44"
tracing-subscriber = { version = "=0.3.23", features = ["env-filter"] }
