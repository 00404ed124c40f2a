[package]
name = "mcpi"
version = "0.1.0"
edition = "2021"
publish = false

[dependencies]
tokio = { version = "1", features = ["net", "io-util", "sync", "time", "rt", "macros"] }
serde_json = "1"
nalgebra = "*"
futures-core = "*"
async-stream = "*"
