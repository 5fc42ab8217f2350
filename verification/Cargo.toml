[package]
name = "tuner"
version = "0.1.0"
edition = "2021"
publish = false

[dependencies]
uuid = { version = "*", features = ["v4"] }
serde = { version = "*", features = ["derive"] }
toml = "*"
tokio = { version = "*", features = ["rt-multi-thread", "fs"] }
reqwest = { version = "*", default-features = false }
raylib = "*"
