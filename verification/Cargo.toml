[package]
name = "lurk"
version = "0.1.0"
edition = "2021"
publish = false

[dependencies]
bytes = "*"
uuid = { version = "*", features = ["v4"] }
