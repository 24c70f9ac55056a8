[package]
name = "setup_read_cleanup"
version = "0.3.1"
edition = "2021"
publish = false

[dependencies]
futures = "0.3"
tokio = { version = "1", features = ["rt", "rt-multi-thread", "sync", "time"] }
