[package]
name = "macuse"
version = "0.1.0"
edition = "2021"
publish = false

[dependencies]
anyhow = "1"
cocoa = "0.25"
core-foundation = "0.9"
core-graphics = "0.23"
dirs = "5"
objc = "0.2"
serde = { version = "1", features = ["derive"] }
serde_json = "1"
