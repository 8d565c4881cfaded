[package]
name = "cflare"
version = "0.1.0"
edition = "2021"
publish = false

[dependencies]
chrono = { version = "*", features = ["serde"] }
clap = "2"
cloudflare = "0.8"
colored = "*"
dirs = "*"
serde = { version = "1", features = ["derive"] }
tabular = "*"
text_io = "*"
toml = "*"
