[package]
name = "kind2"
version = "0.1.0"
edition = "2021"
publish = false

[dependencies]
hvm = "0.1"
stacker = "0.1"
clap = { version = "3", features = ["derive"] }
