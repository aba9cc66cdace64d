[package]
name = "bitwise_calc"
version = "0.1.0"
edition = "2021"
publish = false

[dependencies]
color-eyre = "*"
ratatui = "*"
tui-big-text = "*"
