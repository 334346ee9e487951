[package]
name = "serder"
version = "0.1.0"
edition = "2021"
publish = false

[dependencies]
ron = "*"
directories = "*"
anyhow = "*"
tokio = { version = "*", default-features = false, features = ["fs", "io-util", "sync", "rt"] }
