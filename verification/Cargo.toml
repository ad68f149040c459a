[package]
name = "bgg_client"
version = "0.1.0"
edition = "2021"
publish = false

[dependencies]
serde = "1"
serde-xml-rs = "*"
reqwest = { version = "0.12", default-features = false }
tokio = { version = "1", features = ["time"] }
