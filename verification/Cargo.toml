[package]
name = "weather"
version = "0.1.0"
edition = "2021"
publish = false

[dependencies]
anyhow = "*"
base64 = "*"
clap = { version = "*", features = ["derive"] }
hound = "*"
reqwest = { version = "*", default-features = false, features = ["blocking", "json"] }
rodio = "*"
serde = { version = "*", features = ["derive"] }
serde_json = "*"
