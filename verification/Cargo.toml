[package]
name = "capping"
version = "0.1.0"
edition = "2021"
publish = false

[dependencies]
chrono = "0.4"
sysconf = "*"
glob = "0.3"
log = "0.4"
simple_logger = "*"
clap = { version = "4", features = ["derive"] }
