[package]
name = "turbotanks"
version = "0.1.0"
edition = "2021"
publish = false

[dependencies]
serde = { version = "1", features = ["derive"] }
serde_derive = "1"
sfml = "0.14"
toml = "0.5"
