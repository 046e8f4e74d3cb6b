[package]
name = "markup"
version = "0.1.0"
edition = "2021"
publish = false

[dependencies]
garnish_lang = "=0.0.5-alpha"
serde = { version = "=1.0.229", features = ["derive"] }
serde_garnish = "=0.3.0"
