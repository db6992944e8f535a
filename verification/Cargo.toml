[package]
name = "burnin"
version = "0.1.0"
edition = "2021"
publish = false

[dependencies]
aes = "=0.9.3"
ctr = "=0.10.1"
rand = "=0.8.8"
rand_chacha = "=0.3.1"
anyhow = "*"
clap = { version = "*", features = ["derive"] }
compio = { version = "=0.19.2", features = ["fs", "io", "macros"] }
async-channel = "*"
rayon = "*"
tracing = "*"
tracing-subscriber = "*"
tracing-indicatif = "*"
indicatif = "*"
block-utils = "*"
