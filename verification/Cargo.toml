[package]
name = "voice_intelligence"
version = "0.1.0"
edition = "2021"
publish = false

[dependencies]
sha2 = "0.10"
hex = "0.4"
reqwest = { version = "0.12", default-features = false, features = ["blocking"] }
whisper-rs = "0.12"
num_cpus = "1"
