[package]
name = "zmtp_core"
version = "0.1.0"
edition = "2021"
publish = false

[dependencies]
bytes = "1"
io-uring = "*"
libc = "0.2"
tokio = { version = "1", features = ["io-util", "time"] }
tokio-util = { version = "0.7", features = ["codec"] }
tracing = "0.1"
