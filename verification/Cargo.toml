[package]
name = "crosstalk"
version = "1.0.0"
edition = "2021"
publish = false

[dependencies]
tokio = { version = "1", features = ["sync", "rt", "rt-multi-thread", "time"] }
syn = { version = "2", features = ["full"] }
quote = "1"
proc-macro2 = "1"
