[package]
name = "wheel"
version = "0.1.0"
edition = "2021"
publish = false

[dependencies]
tokio = { version = "*", features = ["rt-multi-thread", "macros", "process", "fs", "io-util", "time", "sync"] }
clap = "*"
reqwest = { version = "*", default-features = false }
chrono = "*"
