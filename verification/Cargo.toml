[package]
name = "termos"
version = "0.1.0"
edition = "2021"
publish = false

[dependencies]
clap = { version = "4", features = ["derive"] }
crossterm = "*"
directories = "*"
serde = { version = "1", features = ["derive"] }
serde_json = "1"
