[package]
name = "shco"
version = "0.1.0"
edition = "2021"
publish = false

[dependencies]
sha256 = "*"
serde = { version = "*", features = ["derive"] }
serde_json = "*"
clap = { version = "*", features = ["derive"] }
sysinfo = "*"
anyhow = "*"
log = "*"
env_logger = "*"
chrono = "*"
