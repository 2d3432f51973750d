[package]
name = "wagyu"
version = "0.1.0"
edition = "2021"
publish = false

[dependencies]
clap = "*"
rand = "0.8"
rand_core = "0.6"
serde = { version = "1", features = ["derive"] }
serde_json = "1"
