[package]
name = "credsort"
version = "0.1.0"
edition = "2021"
publish = false

[dependencies]
lazy-regex = "3"
clap = { version = "4", features = ["derive"] }
bytelines = "2"
