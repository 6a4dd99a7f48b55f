[package]
name = "aeonium"
version = "0.0.1"
edition = "2021"
publish = false

[dependencies]
anyhow = "1"
cpal = "0.14"
crossterm = "0.25"
tui = "0.19"
