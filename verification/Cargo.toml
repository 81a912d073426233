[package]
name = "rs_clean"
version = "0.1.0"
edition = "2021"
publish = false

[dependencies]
which = "*"
clap = { version = "4", features = ["derive"] }
serde = { version = "1", features = ["derive"] }
serde_json = "1"
toml = "*"
dirs = "*"
tokio = { version = "1", features = ["full"] }
futures = "0.3"
glob = "0.3"
walkdir = "2"
indicatif = "*"
dialoguer = "*"
colored = "*"
