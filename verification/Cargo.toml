[package]
name = "delivery_client"
version = "0.1.0"
edition = "2021"
publish = false

[dependencies]
reqwest = { version = "*", default-features = false }
secrecy = "*"
tracing = "*"
tracing-bunyan-formatter = "*"
tracing-log = "*"
tracing-subscriber = { version = "*", features = ["env-filter"] }
