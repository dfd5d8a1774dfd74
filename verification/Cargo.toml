[package]
name = "alterable_logger"
version = "1.0.0"
edition = "2021"
publish = false

[dependencies]
arc-swap = "1"
log = { version = "0.4", features = ["std"] }
once_cell = "1"
