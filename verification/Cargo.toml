[package]
name = "muzik_tui"
version = "0.1.0"
edition = "2021"
publish = false

[dependencies]
crossterm = "*"
ratatui = "*"
tokio = { version = "*", features = ["full"] }
youtube_dl = { version = "*", default-features = false }
