[package]
name = "dockim"
version = "0.1.0"
edition = "2021"
publish = false

[dependencies]
rand = "0.9"
clap = { version = "4", features = ["derive"] }
colored = "*"
dirs = "*"
itertools = "*"
miette = "7"
scopeguard = "1"
serde = { version = "1", features = ["derive"] }
serde-hjson = "*"
serde_json = "1"
serde_yaml = "*"
tempfile = "3"
tokio = { version = "1", features = ["full"] }
toml = "*"
