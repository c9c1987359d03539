[package]
name = "imgconv"
version = "0.1.0"
edition = "2021"
publish = false

[dependencies]
actix-web = "=4.15.0"
actix-web-validator = "=7.0.0"
image = "=0.25.10"
serde = { version = "=1.0.229", features = ["derive"] }
validator = { version = "=0.20.0", features = ["derive"] }
