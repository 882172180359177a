[package]
name = "aptosbb"
version = "0.1.0"
edition = "2021"
publish = false

[dependencies]
anyhow = "*"
bcs = "*"
clap = { version = "*", features = ["derive"] }
move-core-types = "*"
