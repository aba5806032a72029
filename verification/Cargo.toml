[package]
name = "droneplay"
version = "0.1.0"
edition = "2021"
publish = false

[dependencies]
nix = { version = "*", features = ["fs", "user"] }
structopt = "0.3"
users = "*"
