[package]
name = "broodrep"
version = "0.1.0"
edition = "2021"
publish = false

[dependencies]
explode = "*"
flate2 = "*"
anyhow = "*"
chrono = "*"
clap = { version = "*", features = ["derive"] }
