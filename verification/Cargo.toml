[package]
name = "slugpm"
version = "0.1.0"
edition = "2021"
publish = false

[dependencies]
slug = "*"
anyhow = "*"
atty = "*"
clap = { version = "*", features = ["derive"] }
