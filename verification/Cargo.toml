[package]
name = "xleak"
version = "0.1.0"
edition = "2021"
publish = false

[dependencies]
anyhow = "1"
arboard = { version = "3", default-features = false }
calamine = "*"
chrono = "0.4"
clap = { version = "4", features = ["derive"] }
crossterm = "0.28"
dirs = "*"
prettytable-rs = "0.10"
ratatui = "0.29"
serde = { version = "1", features = ["derive"] }
toml = "*"
