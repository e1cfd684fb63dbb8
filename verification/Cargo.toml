[package]
name = "sniproxy"
version = "0.1.0"
edition = "2021"
publish = false

[dependencies]
rustls = "0.16"
uuid = { version = "1", features = ["v4"] }
tokio = { version = "1", features = ["rt-multi-thread", "macros", "net", "io-util"] }
futures = "0.3"
log = "0.4"
env_logger = "0.11"
