[package]
name = "nativeblocks"
version = "0.1.0"
edition = "2021"
publish = false

[dependencies]
serde = { version = "1", features = ["derive"] }
serde_json = "1"
tokio = { version = "1", features = ["sync", "rt", "macros"] }
async-trait = "0.1"
uniffi = "0.29"
rkyv = "0.8"
rquickjs = "*"
