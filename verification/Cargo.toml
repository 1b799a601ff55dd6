[package]
name = "lazorkit"
version = "0.1.0"
edition = "2021"
publish = false

[dependencies]
anchor-lang = { version = "0.31.1", features = ["init-if-needed"] }
base64 = "0.22"
serde_json = "1"
