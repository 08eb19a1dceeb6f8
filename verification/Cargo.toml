[package]
name = "cellsim"
version = "0.1.0"
edition = "2021"

[dependencies]
seeded-random = { version = "=0.6.0", features = ["std"] }
crossterm = "=0.29.0"
ratatui = "=0.30.2"
