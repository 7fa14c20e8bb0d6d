[package]
name = "supervise"
version = "0.1.0"
edition = "2021"
publish = false

[dependencies]
tokio = { version = "*", features = ["macros", "process", "rt", "time"] }
structopt = "*"
