[package]
name = "reqbook"
version = "0.1.0"
edition = "2021"
publish = false

[dependencies]
sqlite = "0.26"
termion = "1.5"
tui = "0.16"
unicode-width = "0.1"
