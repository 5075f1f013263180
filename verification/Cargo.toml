[package]
name = "wake_pipeline"
version = "0.1.0"
edition = "2021"
publish = false

[dependencies]
cpal = "0.15"
rubato = "*"
thiserror = "*"
tokio = { version = "1", features = ["sync", "rt", "rt-multi-thread", "macros", "time"] }
vosk = "*"
