[package]
name = "hostkit"
version = "0.1.0"
edition = "2021"
publish = false

[dependencies]
tokio = { version = "1", features = ["rt", "rt-multi-thread", "sync", "process", "macros", "time", "io-util"] }
