[package]
name = "kappa"
version = "0.1.0"
edition = "2021"
publish = false

[dependencies]
ropey = "1.6"
crossterm = "0.28"
ratatui = "0.29"
unicode-width = "0.2"
