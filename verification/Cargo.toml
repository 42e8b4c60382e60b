[package]
name = "model_runtime"
version = "0.1.0"
edition = "2021"
publish = false

[dependencies]
anyhow = "1"
serde = { version = "1", features = ["derive"] }
candle-core = "*"
candle-nn = "*"
rand = "0.8"

[dev-dependencies]
