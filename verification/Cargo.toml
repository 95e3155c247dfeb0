[package]
name = "pdf2zh"
version = "0.1.0"
edition = "2021"
publish = false

[dependencies]
indexmap = "2"
unicode-width = "0.2"
dirs = "*"
serde = { version = "1", features = ["derive"] }
serde_json = "1"
toml = "*"
toml_edit = "*"
crossterm = "*"
ratatui = "*"
tokio = { version = "1", features = ["rt-multi-thread", "macros", "sync", "time", "process", "io-util"] }
anyhow = "1"
which = "*"
