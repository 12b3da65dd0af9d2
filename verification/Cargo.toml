[package]
name = "mule"
version = "0.1.0"
edition = "2021"
publish = false

[dependencies]
sha2 = "0.10"
tokio = { version = "1", features = ["full"] }
hyper = { version = "0.14", features = ["full"] }
reqwest = { version = "0.11", default-features = false }
sqlx = { version = "0.7", default-features = false, features = ["runtime-tokio", "sqlite"] }
tracing = "0.1"
tracing-subscriber = "0.3"
