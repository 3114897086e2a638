[package]
name = "watchtee"
version = "0.1.0"
edition = "2021"
publish = false

[dependencies]
ctrlc = "3"
nix = { version = "0.30", features = ["signal", "process"] }
rand = "0.8"
structopt = "0.3"
tempfile = "3"
