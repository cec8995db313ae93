[package]
name = "augu"
version = "0.1.0"
edition = "2021"
publish = false

[dependencies]
serde_json = "1"
reqwest = { version = "0.12", features = ["blocking"] }
structopt = "0.3"
env_logger = "0.11"
failure = "0.1"
