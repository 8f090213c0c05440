[package]
name = "cargo-aur"
version = "1.7.1"
edition = "2021"
publish = false

[dependencies]
colored = "2"
gumdrop = "0.8"
hmac-sha256 = "1"
serde = { version = "1", features = ["derive"] }
toml = "0.8"
