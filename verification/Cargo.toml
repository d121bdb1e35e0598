[package]
name = "theclicker"
version = "0.1.0"
edition = "2021"
publish = false

[dependencies]
clap = { version = "*", features = ["derive"] }
serde = { version = "*", features = ["derive"] }
ron = "*"
input-linux = "*"
nix = "*"
