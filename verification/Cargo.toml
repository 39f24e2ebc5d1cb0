[package]
name = "sdui"
version = "0.1.0"
edition = "2021"

[dependencies]
bytes = "1"
itertools = "0.10"
reqwest = { version = "0.11", features = ["json"] }
serde = { version = "1", features = ["derive"] }
serde_json = "1"
