[package]
name = "scribble"
version = "0.1.0"
edition = "2021"
publish = false

[dependencies]
anyhow = "=1.0.104"
cgmath = "=0.18.0"
log = "=0.4.34"
pretty_env_logger = "=0.5.0"
serde = { version = "=1.0.229", features = ["derive"] }
toml = "=0.8.23"
vulkanalia = { version = "=0.35.0", features = ["libloading", "window"] }
winit = "=0.29.15"
