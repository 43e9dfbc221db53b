[package]
name = "mytools"
version = "0.1.0"
edition = "2021"
publish = false

[dependencies]
iced = { version = "0.10", default-features = false, features = ["tokio"] }
time = { version = "0.3", features = ["local-offset"] }
tokio = { version = "1", features = ["rt"] }
