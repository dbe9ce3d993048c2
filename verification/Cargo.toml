[package]
name = "ak"
version = "0.1.0"
edition = "2021"
publish = false

[dependencies]
futures = "0.3"
tokio = { version = "1", features = ["rt", "time", "macros"] }
syn = { version = "1", features = ["full", "visit-mut"] }
quote = "1"
proc-macro2 = "1"
