[package]
name = "oobe_core"
version = "0.1.0"
edition = "2021"
publish = false

[dependencies]
clap = { version = "*", features = ["derive"] }
libloading = "*"
log = "*"
log4rs = "*"
tokio = { version = "*", features = ["rt-multi-thread", "sync", "time"] }
