[package]
name = "openai_audio"
version = "0.1.0"
edition = "2021"
publish = false

[dependencies]
http = "1"
rand = "0.8"
serde = { version = "1", features = ["derive"] }
serde_json = "1"
thiserror = "1"
url = "2"
