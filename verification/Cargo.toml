[package]
name = "cat_nipa"
version = "0.1.0"
edition = "2021"
publish = false

[dependencies]
flate2 = "*"
infer = "*"
encoding_rs = "*"
clap = { version = "*", features = ["derive"] }
env_logger = "*"
indicatif = "*"
log = "*"
