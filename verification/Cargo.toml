[package]
name = "line_notify"
version = "0.1.0"
edition = "2021"
publish = false

[dependencies]
reqwest = { version = "*", default-features = false, features = ["multipart"] }
tokio = { version = "*", default-features = false, features = ["fs", "net", "rt", "io-util"] }
