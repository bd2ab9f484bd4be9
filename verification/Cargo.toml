[package]
name = "netonet"
version = "0.1.0"
edition = "2021"
publish = false

[dependencies]
log = "0.4"
quinn = "0.10"
rustls = "0.21"
rustls-pemfile = "1"
serde = { version = "1", features = ["derive"] }
serde_json = "1"
simple_logger = "4"
tokio = { version = "1", features = ["rt-multi-thread", "net", "io-util", "macros", "fs", "sync", "time"] }
