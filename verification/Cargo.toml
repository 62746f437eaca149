[package]
name = "converge"
version = "0.1.0"
edition = "2021"
publish = false

[dependencies]
futures = "0.3"
nvim-rs = { version = "*", features = ["use_tokio"] }
tokio = { version = "1", features = ["rt", "sync"] }
