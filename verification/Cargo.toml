[package]
name = "warp_extension"
version = "0.1.0"
edition = "2021"
publish = false

[dependencies]
serde = { version = "1", features = ["derive"] }
serde_json = "1"
toml = "0.8"
instant = "0.1"
thiserror = "1"

[dev-dependencies]
tempfile = "3"
