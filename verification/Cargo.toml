[package]
name = "arcana"
version = "0.1.0"
edition = "2021"
publish = false

[dependencies]
chrono = "0.4"
rand = "0.8"
crossterm = "0.28"
ratatui = "0.29"
clap = { version = "4", features = ["derive"] }
dirs = "5"
thiserror = "1"
