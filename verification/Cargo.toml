[package]
name = "cocogitto_changelog"
version = "0.1.0"
edition = "2021"
publish = false

[dependencies]
chrono = { version = "0.4", default-features = false, features = ["clock", "serde", "std"] }
serde = "1"

[dev-dependencies]
toml = "0.5"
