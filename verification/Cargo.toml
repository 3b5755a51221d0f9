[package]
name = "zktoy"
version = "0.1.0"
edition = "2021"
publish = false

[dependencies]
bellman_ce = "*"
serde = { version = "*", features = ["derive"] }
clap = { version = "*", features = ["derive"] }
