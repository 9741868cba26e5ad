[package]
name = "things_api"
version = "0.1.0"
edition = "2021"
publish = false

[dependencies]
actix-web = "4"
env_logger = "*"
serde = { version = "1", features = ["derive"] }
