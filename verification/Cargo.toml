[package]
name = "rkvm_input"
version = "0.1.0"
edition = "2021"
publish = false

[dependencies]
futures = "0.3"
inotify = "*"
tokio = { version = "1", features = ["fs", "sync", "rt", "macros"] }
