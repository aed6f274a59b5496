[package]
name = "gitserver"
version = "0.1.0"
edition = "2021"
publish = false

[dependencies]
anyhow = "1"
clap = { version = "4", features = ["derive"] }
signal-hook = "0.3"
tf-bindgen = "*"
tf-kubernetes = "*"
toml = "*"
