[package]
name = "playback_engine"
version = "0.1.0"
edition = "2021"
publish = false

[dependencies]
rodio = "0.21"
symphonia = "0.5"
serde = { version = "1", features = ["derive"] }
serde_json = "1"
directories = "*"
