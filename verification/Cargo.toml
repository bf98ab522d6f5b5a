[package]
name = "libraire"
version = "0.1.0"
edition = "2021"
publish = false

[dependencies]
minijinja = "*"
clap = { version = "*", features = ["derive"] }
tracing = "*"
tracing-subscriber = { version = "*", features = ["env-filter"] }
