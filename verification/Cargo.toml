[package]
name = "splicer"
version = "0.1.0"
edition = "2021"
publish = false

[dependencies]
rustix = { version = "1", features = ["pipe", "fs", "net"] }
tokio = { version = "1", features = ["fs", "io-util", "net", "rt"] }
