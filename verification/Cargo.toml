[package]
name = "starstruck"
version = "0.1.0"
edition = "2021"
publish = false

[dependencies]
dirs = "*"
osyris = "*"
terminal_size = "*"
whoami = "*"
