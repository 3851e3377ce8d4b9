[package]
name = "slap"
version = "0.1.0"
edition = "2021"
publish = false

[dependencies]
clap = { version = "4", features = ["derive"] }
dirs = "5"
open = "5"
serde = { version = "1", features = ["derive"] }
tempfile = "3"
toml = "0.8"
