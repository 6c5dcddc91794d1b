[package]
name = "reflex"
version = "0.1.0"
edition = "2021"
publish = false

[dependencies]
bytes = "*"
futures = "*"
tokio = { version = "*", features = ["rt", "net", "sync", "io-util", "macros"] }
