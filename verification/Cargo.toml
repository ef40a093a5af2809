[package]
name = "pipebased"
version = "0.1.0"
edition = "2021"
publish = false

[dependencies]
rand = "*"
fslock = "*"
serde = { version = "*", features = ["derive"] }
serde_yaml = "*"
