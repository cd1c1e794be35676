[package]
name = "reverse_proxy"
version = "0.1.0"
edition = "2021"
publish = false

[dependencies]
actix-web = { version = "3", default-features = false }
env_logger = "0.8"
log = "0.4"
redis = "0.20"
