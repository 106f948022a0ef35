[package]
name = "peach"
version = "0.1.0"
edition = "2021"
publish = false

[dependencies]
tokio = { version = "1", features = ["sync", "net", "io-util", "rt-multi-thread", "macros"] }
chrono = "0.4"
