[package]
name = "tesql"
version = "0.1.0"
edition = "2021"
publish = false

[dependencies]
serde = { version = "*", features = ["derive"] }
serde_json = "*"
linked-hash-map = { version = "*", features = ["serde_impl"] }
structopt = "*"
