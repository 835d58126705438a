[package]
name = "iiif"
version = "0.1.0"
edition = "2021"
publish = false

[dependencies]
serde_json = "*"
url = "*"
bytes = "*"
reqwest = { version = "*", default-features = false }
