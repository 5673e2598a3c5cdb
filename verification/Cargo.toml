[package]
name = "neto"
version = "0.1.0"
edition = "2021"
publish = false

[dependencies]
reqwest = { version = "=0.12.28", default-features = false, features = ["json", "multipart"] }
serde_json = "=1.0.151"
