[package]
name = "spangb"
version = "0.1.0"
edition = "2021"
publish = false

[dependencies]
itertools = "0.10"
raylib = "3.5"

[dev-dependencies]
rand = "0.8"
