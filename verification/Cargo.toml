[package]
name = "ctp_rust"
version = "0.1.0"
edition = "2021"
publish = false

[dependencies]
encoding = "*"
tokio = { version = "*", features = ["sync", "time", "rt-multi-thread", "macros"] }
dotenvy = "*"
