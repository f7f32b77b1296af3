[package]
name = "titdb"
version = "0.1.0"
edition = "2021"

[dependencies]
rand = "0.8"
reqwest = { version = "0.11", features = ["json"] }
serde = { version = "1", features = ["derive"] }
