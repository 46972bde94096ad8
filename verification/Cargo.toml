[package]
name = "jade"
version = "0.1.0"
edition = "2021"
publish = false

[dependencies]
clap = { version = "4", features = ["derive"] }
human-panic = "1"
log = "0.4"
