[package]
name = "reference_finder"
version = "0.1.0"
edition = "2021"
publish = false

[dependencies]
clap = { version = "*", features = ["derive"] }
console = "*"
console_engine = "*"
glob = "*"
slowprint = "*"
