[package]
name = "monosynth"
version = "0.1.0"
edition = "2021"
publish = false

[dependencies]
ctrlc = "*"
portaudio = "0.7"
