[package]
name = "jp_deinflector"
version = "0.1.0"
edition = "2021"

[dependencies]
fxhash = "=0.2.1"
