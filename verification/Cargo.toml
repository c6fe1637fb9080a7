[package]
name = "statisch"
version = "0.1.0"
edition = "2021"
publish = false

[dependencies]
clap = "2"
horrorshow = "0.8"
serde = { version = "1", features = ["derive"] }
serde_yaml = "0.8"
