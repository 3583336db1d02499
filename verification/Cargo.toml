[package]
name = "gol"
version = "0.1.0"
edition = "2021"
publish = false

[dependencies]
rand = "0.3"
clap = "2"
rustbox = "0.11"
