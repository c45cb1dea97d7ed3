[package]
name = "lets_pray"
version = "0.1.0"
edition = "2021"
publish = false

[dependencies]
chrono = "*"
chrono-tz = "*"
serde_json = "*"
urlencoding = "*"
reqwest = { version = "*", default-features = false, features = ["blocking"] }
auto-launch = "*"
