[package]
name = "frame_capture"
version = "0.1.0"
edition = "2021"
publish = false

[dependencies]
rgb = "0.8"
image = { version = "0.24", default-features = false, features = ["png"] }
log = "0.4"
env_logger = "0.10"
smithay-client-toolkit = { version = "0.18", default-features = false }
thiserror = "1.0"
