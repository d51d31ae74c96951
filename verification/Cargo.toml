[package]
name = "goauld"
version = "0.1.0"
edition = "2021"
publish = false

[dependencies]
goblin = "*"
proc-maps = "*"
clap = { version = "*", features = ["derive"] }
log = "*"
simple_logger = "*"
