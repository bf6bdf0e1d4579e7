[package]
name = "models"
version = "0.1.0"
edition = "2021"
publish = false

[dependencies]
zerovec = { version = "=0.11.9", features = ["alloc", "derive", "serde"] }
flate2 = "=1.1.10"
serde = { version = "=1.0.229", features = ["derive"] }
serde_json = "=1.0.154"
clap = { version = "=4.6.7", features = ["derive", "env"] }
env_logger = "=0.11.11"
log = "=0.4.35"
binrw = "=0.15.2"
zerocopy = { version = "=0.8.63", features = ["derive"] }
