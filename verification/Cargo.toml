[package]
name = "wayfinder"
version = "0.1.0"
edition = "2021"
publish = false

[dependencies]
anyhow = "*"
content_inspector = "*"
crossterm = "*"
dirs = "*"
fs_extra = "*"
infer = "*"
ratatui = "*"
serde = { version = "*", features = ["derive"] }
tokio = { version = "*", features = ["rt-multi-thread", "sync"] }
toml = "*"
