[package]
name = "paradise_synth"
version = "0.1.0"
edition = "2021"
publish = false

[dependencies]
anyhow = "*"
cpal = "=0.13.5"
midir = "=0.8.0"
