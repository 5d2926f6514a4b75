[package]
name = "matrix2mqtt"
version = "0.2.3"
edition = "2021"
publish = false

[dependencies]
clap = { version = "3", features = ["derive", "env"] }
env_logger = "*"
log = "*"
matrix-sdk = "0.4"
paho-mqtt = "*"
tokio = { version = "1", features = ["rt-multi-thread", "macros"] }
