[package]
name = "bb8_redis_break_with_error"
version = "0.1.0"
edition = "2021"
publish = false

[dependencies]
async-trait = "0.1"
bb8 = "0.8"
redis = { version = "0.21", default-features = false, features = ["aio", "tokio-comp"] }

[dev-dependencies]
tokio = { version = "1", features = ["rt", "io-util"] }
