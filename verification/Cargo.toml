[package]
name = "dicrs"
version = "0.1.0"
edition = "2021"
publish = false

[dependencies]
chrono = "0.4"
clipboard = "0.5"
color-eyre = "0.6"
crossterm = "0.28"
ratatui = "0.29"
rusqlite = "0.32"
