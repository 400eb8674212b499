[package]
name = "playing_with_hlists"
version = "0.1.0"
edition = "2021"
publish = false

[dependencies]
frunk = "=0.4.4"
