[package]
name = "metronome"
version = "0.1.0"
edition = "2021"
publish = false

[dependencies]
clap = "*"
crossterm = "*"
ratatui = "*"
rodio = "*"
tokio = { version = "*", features = ["rt-multi-thread", "macros"] }
