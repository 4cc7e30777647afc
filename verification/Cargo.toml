[package]
name = "solution_picker"
version = "0.1.0"
edition = "2021"
publish = false

[dependencies]
serde_json = "1"
walkdir = "2"
ratatui = "0.29"
crossterm = "0.28"
