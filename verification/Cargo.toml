[package]
name = "trim_quals"
version = "0.1.1"
edition = "2021"
publish = false

[dependencies]
clap = { version = "*", features = ["derive"] }
rust-htslib = { version = "*", default-features = false }
