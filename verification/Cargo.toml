[package]
name = "levari"
version = "0.1.0"
edition = "2021"
publish = false

[dependencies]
regex = "1"
rand = "0.8"
clap = { version = "4", features = ["derive"] }
crossterm = "0.25"
tui = "0.19"
rodio = "0.17"
