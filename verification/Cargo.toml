[package]
name = "kubenav"
version = "0.1.0"
edition = "2021"
publish = false

[dependencies]
crossterm = "*"
tui = "*"
