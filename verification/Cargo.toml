[package]
name = "tinto"
version = "0.1.0"
edition = "2021"
publish = false

[dependencies]
anyhow = "*"
clap = { version = "*", features = ["derive", "env"] }
crossterm = "*"
directories = "*"
dotenv = "*"
futures = "*"
hues = "*"
ratatui = "*"
simplelog = "*"
tokio = { version = "*", features = ["full"] }
toml = "*"
