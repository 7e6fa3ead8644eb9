[package]
name = "discuit_rs"
version = "0.1.0"
edition = "2021"
publish = false

[dependencies]
serde_json = "*"
chrono = "*"
url = "*"
reqwest = { version = "*", default-features = false, features = ["cookies"] }
