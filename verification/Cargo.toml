[package]
name = "abyss"
version = "0.1.0"
edition = "2021"
publish = false

[dependencies]
sha2 = "0.10"
serde = { version = "1", features = ["derive"] }
serde_json = { version = "1", features = ["raw_value"] }
toml = "0.8"
ratatui = "0.29"
crossterm = "0.28"
rodio = "0.19"
