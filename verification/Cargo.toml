[package]
name = "voice_disconnect"
version = "0.1.0"
edition = "2021"
publish = false

[dependencies]
tokio = { version = "1", features = ["rt", "time"] }
once_cell = "1"
toml = "*"
