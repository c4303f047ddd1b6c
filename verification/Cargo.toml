[package]
name = "xdsign"
version = "0.1.0"
edition = "2021"
publish = false

[dependencies]
clap = { version = "=4.6.7", features = ["derive", "cargo"] }
env_logger = "=0.11.11"
indicatif = "=0.18.6"
indicatif-log-bridge = "=0.2.3"
log = "=0.4.35"
reqwest = { version = "=0.12.28", default-features = false }
sqlite = "=0.37.4"
