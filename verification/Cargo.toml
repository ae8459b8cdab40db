[package]
name = "caffeineclipper"
version = "0.1.0"
edition = "2021"
publish = false

[dependencies]
dirs = "5"
rocket = "0.5"
serde = { version = "1", features = ["derive"] }
