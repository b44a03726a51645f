[package]
name = "cleaner_lib"
version = "0.1.0"
edition = "2021"
publish = false

[dependencies]
clap = { version = "4", features = ["derive"] }
yaml-rust = "0.4"
