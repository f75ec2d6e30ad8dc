[package]
name = "buzz_auth"
version = "0.1.0"
edition = "2021"
publish = false

[dependencies]
base64 = "0.22"
hex = "0.4"
tokio = { version = "1", default-features = false, features = ["time", "rt", "macros"] }
axum = { version = "0.7", default-features = false }
