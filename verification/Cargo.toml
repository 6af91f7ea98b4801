[package]
name = "sniprun"
version = "0.1.0"
edition = "2021"
publish = false

[dependencies]
dirs = "*"
log = "*"
neovim-lib = "=0.6.1"
rmp = "=0.8.8"
simple-logging = "*"
