[package]
name = "chip8_core"
version = "0.1.0"
edition = "2021"
publish = false

[dependencies]
rand = "*"
ratatui = "*"
crossterm = "*"
tui-logger = "*"
color-eyre = "*"
log = "*"
phf = { version = "*", features = ["macros"] }
