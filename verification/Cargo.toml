[package]
name = "cpu16_emu"
version = "0.1.0"
edition = "2021"
publish = false

[dependencies]
rand = "0.8"
hex = "0.4"
ratatui = "0.24"
crossterm = "0.27"
chrono = "0.4"
