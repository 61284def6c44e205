[package]
name = "pgdog"
version = "0.1.0"
edition = "2021"
publish = false

[dependencies]
fnv = "1"
rand = "0.9"
tokio = { version = "1", features = ["macros", "rt", "sync", "time"] }
tracing = "0.1"
