[package]
name = "zentime"
version = "0.1.0"
edition = "2021"
publish = false

[dependencies]
tokio = { version = "1", default-features = false, features = ["sync", "rt-multi-thread", "macros", "fs", "io-util", "time"] }
crossbeam = "0.8"
interprocess = { version = "1.2", features = ["tokio_support"] }
futures = "0.3"
anyhow = "1"
log = "0.4"
