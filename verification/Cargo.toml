[package]
name = "logzy"
version = "0.1.0"
edition = "2021"
publish = false

[dependencies]
atty = "*"
chrono = "*"
serde_json = { version = "*", features = ["preserve_order"] }
structopt = "*"
termion = "*"
