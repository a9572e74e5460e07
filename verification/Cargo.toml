[package]
name = "xpose"
version = "0.1.0"
edition = "2021"
publish = false

[dependencies]
x11rb = { version = "*", features = ["composite", "damage", "render"] }
serde = { version = "*", features = ["derive"] }
serde_json = "*"
dirs = "*"
log = "*"
env_logger = "*"
thiserror = "*"
