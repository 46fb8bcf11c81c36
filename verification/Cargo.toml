[package]
name = "durlog"
version = "0.1.0"
edition = "2021"
publish = false

[dependencies]
tempdir = "0.3"
tokio = { version = "1", features = ["fs", "io-util", "macros", "rt-multi-thread", "sync"] }
