[package]
name = "flamesim"
version = "0.1.0"
edition = "2021"
publish = false

[dependencies]
rand = "0.8"
clap = { version = "*", features = ["cargo"] }
config = "*"
indicatif = "*"
rayon = "*"
thousands = "*"
