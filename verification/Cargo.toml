[package]
name = "souldos"
version = "0.0.1-alpha"
edition = "2021"
publish = false

[dependencies]
chrono = { version = "0.4", default-features = false, features = ["clock"] }
clap = { version = "4", features = ["derive"] }
human-panic = "*"
