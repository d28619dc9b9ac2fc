[package]
name = "rusty_smith"
version = "0.1.0"
edition = "2021"

[dependencies]
chrono = "0.4"
dotenv = "0.15"
markdown = "*"
serde_yaml = "0.9"
