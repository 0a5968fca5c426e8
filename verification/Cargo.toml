[package]
name = "local"
version = "0.1.0"
edition = "2021"
publish = false

[dependencies]
anyhow = "1.0"
env_logger = "0.11"
log = "0.4"

[dev-dependencies]
bincode = "1.3"
serde = "1.0"
