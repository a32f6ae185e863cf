[package]
name = "cmdtest"
version = "0.1.0"
edition = "2021"

[dependencies]
colored = "*"
serde = { version = "*", features = ["derive"] }
walkdir = "*"
