[package]
name = "zero_shot"
version = "0.1.0"
edition = "2021"
publish = false

[dependencies]
rust-bert = { version = "*", default-features = false }
tch = "*"
