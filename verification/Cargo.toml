[package]
name = "mcman"
version = "0.1.0"
edition = "2021"
publish = false

[dependencies]
chrono = "*"
interprocess = "*"
ipc-channel = "*"
log = "*"
pretty_env_logger = "*"
reqwest = { version = "*", default-features = false, features = ["blocking"] }
sd-notify = "*"
serde = { version = "*", features = ["derive"] }
serde_json = "*"
walkdir = "*"
