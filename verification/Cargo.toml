[package]
name = "territory"
version = "0.1.0"
edition = "2021"
publish = false

[dependencies]
serde = { version = "*", features = ["derive"] }
bincode = "1"
renet = "*"
log = "*"
env_logger = "*"
