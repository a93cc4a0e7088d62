[package]
name = "ratsnake"
version = "0.1.0"
edition = "2021"
publish = false

[dependencies]
anyhow = "1"
crossterm = "0.29"
dirs = "6"
fs-err = "3"
lexopt = "0.3"
rand = "0.9"
rand_chacha = "0.9"
ratatui = "0.29"
serde = { version = "1", features = ["derive"] }
serde_json = "1"
textwrap = "0.16"
thiserror = "2"
toml = "0.8"
unicode-properties = "0.1"
unicode-segmentation = "1"
unicode-width = "0.2"
