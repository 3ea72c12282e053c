[package]
name = "ovim"
version = "0.1.0"
edition = "2021"
publish = false

[dependencies]
tokio = { version = "1", features = ["sync", "rt", "net", "io-util", "macros", "time"] }
serde = { version = "1", features = ["derive"] }
serde_json = "1"
serde_yml = "*"
dirs = "*"
log = "0.4"
env_logger = "*"
chrono = "*"
core-graphics = "*"
core-foundation = "*"
objc = "0.2"
block = "0.1"
dispatch = "0.2"
