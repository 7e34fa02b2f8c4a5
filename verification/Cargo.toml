[package]
name = "t2v"
version = "0.1.0"
edition = "2021"

[dependencies]
clap = "4"
colored = "2"
serde = { version = "1", features = ["derive"] }
toml = "0.8"
