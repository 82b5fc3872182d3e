[package]
name = "staff"
version = "0.1.0"
edition = "2021"
publish = false

[dependencies]
svg = "*"
serde = { version = "1", features = ["derive"] }
