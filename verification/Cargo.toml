[package]
name = "camstream"
version = "0.1.0"
edition = "2021"
publish = false

[dependencies]
actix-web = "4"
futures = "0.3"
opencv = "*"
tokio = { version = "1", features = ["sync", "time", "rt-multi-thread", "macros"] }
