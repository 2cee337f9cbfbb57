[package]
name = "tuxtalk"
version = "0.1.0"
edition = "2021"
publish = false

[dependencies]
dirs = "*"
dasp_sample = "*"
cpal = "*"
tokio = { version = "*", features = ["full"] }
serde = { version = "*", features = ["derive"] }
toml = "*"
notify = "*"
log = "*"
env_logger = "*"
whisper-rs = "*"
