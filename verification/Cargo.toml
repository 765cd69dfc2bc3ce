[package]
name = "bb8-redis"
version = "0.1.0"
edition = "2021"
publish = false

[dependencies]
bb8 = "*"
futures = "*"
redis = { version = "*", default-features = false, features = ["aio", "tokio-comp"] }
tokio = { version = "*", features = ["rt", "sync", "time"] }
