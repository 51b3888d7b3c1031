[package]
name = "jigolo"
version = "0.4.0"
edition = "2021"
publish = false

[dependencies]
anyhow = "1"
ratatui = "0.29"
serde = { version = "1", features = ["derive"] }
tempfile = "3"
toml = "0.8"
