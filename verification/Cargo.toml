[package]
name = "shroud"
version = "0.1.0"
edition = "2021"
publish = false

[dependencies]
dirs = "*"
tokio = { version = "1", features = ["process", "time", "rt-multi-thread", "macros", "sync", "io-util"] }
log = "0.4"
env_logger = "*"
notify-rust = "4"
ctrlc = "3"
libc = "0.2"
