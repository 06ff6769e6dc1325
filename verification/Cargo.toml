[package]
name = "hyprhito"
version = "0.1.0"
edition = "2021"
publish = false

[dependencies]
evdev = "*"
log = "*"
env_logger = "*"
tokio = { version = "*", features = ["rt-multi-thread", "macros", "process", "fs", "time", "io-util"] }
