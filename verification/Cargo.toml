[package]
name = "snazy"
version = "0.1.0"
edition = "2021"
publish = false

[dependencies]
serde_json = "1"
chrono = "0.4"
regex = "1"
clap = "3"
atty = "0.2"
