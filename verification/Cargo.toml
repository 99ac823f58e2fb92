[package]
name = "socks5"
version = "0.1.0"
edition = "2021"
publish = false

[dependencies]
env_logger = { version = "0.3", default-features = false }
futures = "0.1"
futures-cpupool = "0.1"
log = "0.3"
tokio-core = "0.1"
