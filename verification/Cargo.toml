[package]
name = "diffbot"
version = "0.1.0"
edition = "2021"
publish = false

[dependencies]
rustc-serialize = "0.3"
url = "1"
hyper = "0.10"
