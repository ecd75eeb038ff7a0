[package]
name = "gmbr"
version = "0.1.0"
edition = "2021"
publish = false

[dependencies]
bit_field = "0.10"
hex = "0.4"
serde_json = "1"
config = { version = "0.10", default-features = false, features = ["toml"] }
sfml = "0.16"
