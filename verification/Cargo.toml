[package]
name = "qwen_tts"
version = "0.1.0"
edition = "2021"
publish = false

[dependencies]
anyhow = "=1.0.104"
clap = { version = "=4.6.7", features = ["derive"] }
colored = "=3.1.1"
crossterm = "=0.28.1"
dirs = "=7.0.0"
ratatui = "=0.28.1"
serde = { version = "=1.0.229", features = ["derive"] }
toml = "=1.1.7"
tui-textarea = "=0.6.1"
