[package]
name = "loggr"
version = "0.1.0"
edition = "2021"
publish = false

[dependencies]
color-eyre = "=0.6.5"
crossterm = "=0.28.1"
ratatui = "=0.29.0"
serde_json = "=1.0.154"
