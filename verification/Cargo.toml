[package]
name = "text_model"
version = "0.1.0"
edition = "2021"
publish = false

[dependencies]
anyhow = "1"
candle-core = { version = "0.9", default-features = false }
