[package]
name = "peerchat"
version = "0.1.0"
edition = "2021"
publish = false

[dependencies]
libp2p = { version = "=0.42.2", default-features = false, features = ["floodsub"] }
log = "=0.4.35"
async-std = "1.12"
cursive = { version = "0.17", default-features = false, features = ["crossterm-backend"] }
env_logger = { version = "0.9", default-features = false }
