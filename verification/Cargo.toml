[package]
name = "anchor_sentinel"
version = "0.1.0"
edition = "2021"
publish = false

[dependencies]
regex = "1"
syn = { version = "2", features = ["full"] }
quote = "1"
clap = { version = "4", features = ["derive"] }
walkdir = "2"
anyhow = "1"
serde = { version = "1", features = ["derive"] }
serde_json = "1"
colored = "2"
log = "0.4"
env_logger = "0.10"
indicatif = "0.17"
pathdiff = "0.2"
handlebars = "4"
