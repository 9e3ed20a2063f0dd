[package]
name = "lamplighter"
version = "0.1.0"
edition = "2021"
publish = false

[dependencies]
clap = "2"
philipshue = "*"
xdg = "2"
