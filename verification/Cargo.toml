[package]
name = "fdx"
version = "0.1.0"
edition = "2021"
publish = false

[dependencies]
anyhow = "1"
clap = "3"
globset = "0.4"
ignore = "0.4"
normpath = "*"
regex = "1"
