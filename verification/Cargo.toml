[package]
name = "procdash"
version = "0.1.0"
edition = "2021"
publish = false

[dependencies]
clearscreen = "*"
colored = "*"
crossterm = "*"
machine-info = "*"
regex = "*"
sysinfo = "*"
terminal_size = "*"
