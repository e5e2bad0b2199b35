[package]
name = "frogger"
version = "0.1.0"
edition = "2021"
publish = false

[dependencies]
clap = { version = "3.2", default-features = false, features = ["std"] }
crossterm = "0.27"
rand = "0.8"
