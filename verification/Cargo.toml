[package]
name = "battery_pipe"
version = "0.1.0"
edition = "2021"
publish = false

[dependencies]
clap = { version = "4", features = ["derive"] }
libc = "0.2"
log = "0.4"
simple_logger = "*"
