[package]
name = "shout"
version = "0.1.0"
edition = "2021"
publish = false

[dependencies]
anyhow = "1"
arboard = "3"
chrono = "0.4"
cpal = "=0.18.2"
dirs = "6"
enigo = "=0.6.1"
reqwest = { version = "0.12", features = ["blocking", "json"] }
serde = { version = "1", features = ["derive"] }
serde_json = "1"
sherpa-onnx = "=1.13.8"
toml = "0.9"
whisper-rs = "*"
