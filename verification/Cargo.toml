[package]
name = "tpm"
version = "0.1.0"
edition = "2021"
publish = false

[dependencies]
clap = "3"
dialoguer = "0.11"
dirs = "5"
serde = { version = "1", features = ["derive"] }
serde_json = "1"
