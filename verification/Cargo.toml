[package]
name = "elevenlabs_ttv"
version = "0.1.0"
edition = "2021"
publish = false

[dependencies]
reqwest = { version = "0.12", features = ["json"] }
serde = { version = "1", features = ["derive"] }
serde_json = "1"

[dev-dependencies]
http = "1"
tokio = { version = "1", features = ["rt"] }
